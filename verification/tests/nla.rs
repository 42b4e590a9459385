//! Network-level authentication.

use sha2::Digest;
use sun_remote_desktop::credssp::{
    bounded_message, client_binding, logon_failure_message, read_ts_message, same_bytes,
    server_binding, ts_length_bytes, ts_message_size, write_ts_message, CredsspAction,
    CredsspError, CredsspEvent, CredsspServer, TsMessage, LOGON_FAILURE, MAX_TS_REQUEST_SIZE,
};
use sun_remote_desktop::negotiate::{
    account_name, needs_completion, token_length, NegotiateError, NegotiateSession, OpenedData,
    SEC_E_OK, SEC_I_COMPLETE_AND_CONTINUE, SEC_I_COMPLETE_NEEDED, SEC_I_CONTINUE_NEEDED,
};
use sun_remote_desktop::nla::{
    connection_confirm, early_auth_result, parse_negotiation_request, plan_connection,
    tls_continuation_request, tpkt_length, ConnectionPlan, NegotiationError, PrefixBuffer,
    PROTOCOL_HYBRID, PROTOCOL_HYBRID_EX, PROTOCOL_SSL, X224_CONFIRM_SIZE,
};
use sun_remote_desktop::wide::wide;

fn request_with_cookie(protocols: u32) -> Vec<u8> {
    let mut packet = vec![0x03, 0x00, 0x00, 0x00, 0x2a, 0xe0, 0x00, 0x00, 0x00, 0x00, 0x00];
    packet.extend_from_slice(b"Cookie: mstshash=test\r\n");
    packet.extend_from_slice(&[0x01, 0x08, 0x08, 0x00]);
    packet.extend_from_slice(&protocols.to_le_bytes());
    packet.extend_from_slice(&[0x06, 0x00, 0x24, 0x00]);
    packet.extend_from_slice(&[0x11; 16]);
    packet.extend_from_slice(&[0; 16]);
    let length = packet.len() as u16;
    packet[2..4].copy_from_slice(&length.to_be_bytes());
    packet
}

#[test]
fn parses_cookie_and_prefers_hybrid_ex() {
    let request = request_with_cookie(PROTOCOL_SSL | PROTOCOL_HYBRID | PROTOCOL_HYBRID_EX);
    let negotiation = parse_negotiation_request(&request).unwrap();
    assert_eq!(negotiation.preferred_nla_protocol(), Some(PROTOCOL_HYBRID_EX));
    assert_eq!(negotiation.requested_protocols, 0x0b);
}

#[test]
fn continuation_preserves_request_except_for_protocol() {
    let request = request_with_cookie(PROTOCOL_SSL | PROTOCOL_HYBRID_EX);
    let negotiation = parse_negotiation_request(&request).unwrap();
    let continued = tls_continuation_request(request.clone(), negotiation.protocol_offset).unwrap();
    assert_eq!(
        &continued[negotiation.protocol_offset..negotiation.protocol_offset + 4],
        &PROTOCOL_SSL.to_le_bytes()
    );
    let mut expected = request;
    expected[negotiation.protocol_offset..negotiation.protocol_offset + 4]
        .copy_from_slice(&PROTOCOL_SSL.to_le_bytes());
    assert_eq!(continued, expected);
}

#[test]
fn confirm_selects_requested_protocol() {
    let confirm = connection_confirm(PROTOCOL_HYBRID_EX);
    assert_eq!(&confirm[..4], &[3, 0, 0, 19]);
    assert_eq!(&confirm[11..15], &[2, 0, 8, 0]);
    assert_eq!(&confirm[15..19], &PROTOCOL_HYBRID_EX.to_le_bytes());
}

#[test]
fn prefixed_stream_replays_input_and_discards_one_confirm() {
    let mut buffer = PrefixBuffer::new(b"head".to_vec(), X224_CONFIRM_SIZE);
    let mut input = buffer.read(3);
    input.extend(buffer.read(8));
    assert!(buffer.read(8).is_empty());
    input.extend_from_slice(b"tail");
    assert_eq!(&input, b"headtail");

    assert_eq!(buffer.write(10), 10);
    assert_eq!(buffer.write(X224_CONFIRM_SIZE), 9);
    assert_eq!(buffer.write(7), 0);
}

#[test]
fn malformed_requests_are_told_apart() {
    let good = request_with_cookie(PROTOCOL_HYBRID);
    assert_eq!(parse_negotiation_request(&vec![3, 0]), Err(NegotiationError::Truncated));
    let mut wrong = good.clone();
    wrong[0] = 4;
    assert_eq!(parse_negotiation_request(&wrong), Err(NegotiationError::InvalidTpkt));
    let mut wrong = good.clone();
    wrong[3] += 1;
    assert_eq!(parse_negotiation_request(&wrong), Err(NegotiationError::WrongTpktLength));
    let mut wrong = good.clone();
    wrong[5] = 0xd0;
    assert_eq!(parse_negotiation_request(&wrong), Err(NegotiationError::NotAConnectionRequest));
    let mut wrong = good.clone();
    wrong[33] = b' ';
    assert!(parse_negotiation_request(&wrong).is_err());
    let mut wrong = good.clone();
    wrong[34] = 0x02;
    assert_eq!(parse_negotiation_request(&wrong), Err(NegotiationError::NotANegotiationRequest));
    let mut wrong = good.clone();
    wrong[36] = 0x09;
    assert_eq!(parse_negotiation_request(&wrong), Err(NegotiationError::InvalidRequestLength));
    assert_eq!(
        tls_continuation_request(vec![0; 8], 5),
        Err(NegotiationError::InvalidProtocolOffset)
    );
    assert_eq!(tpkt_length(&[3, 0, 1, 2]), Ok(258));
    assert!(tpkt_length(&[2, 0, 1, 2]).is_err());
}

#[test]
fn connections_go_on_as_they_asked() {
    match plan_connection(request_with_cookie(PROTOCOL_HYBRID)).unwrap() {
        ConnectionPlan::Nla { protocol, confirm, mut replay } => {
            assert_eq!(protocol, PROTOCOL_HYBRID);
            assert_eq!(confirm, connection_confirm(PROTOCOL_HYBRID));
            let mut expected = request_with_cookie(PROTOCOL_HYBRID);
            expected[38] = 1;
            assert_eq!(replay.read(1000), expected);
            assert_eq!(replay.write(100), X224_CONFIRM_SIZE);
        }
        ConnectionPlan::Standard(_) => panic!("the client offers it"),
    }
    match plan_connection(request_with_cookie(PROTOCOL_SSL)).unwrap() {
        ConnectionPlan::Standard(mut replay) => {
            assert_eq!(replay.read(1000), request_with_cookie(PROTOCOL_SSL));
            assert_eq!(replay.write(100), 0);
        }
        ConnectionPlan::Nla { .. } => panic!("the client does not offer it"),
    }
    assert_eq!(early_auth_result(PROTOCOL_HYBRID, true), None);
    assert_eq!(early_auth_result(PROTOCOL_HYBRID_EX, true), Some(vec![0, 0, 0, 0]));
    assert_eq!(early_auth_result(PROTOCOL_HYBRID_EX, false), Some(vec![5, 0, 0, 0]));
}

#[test]
fn message_lengths_are_canonical_and_bounded() {
    assert_eq!(ts_length_bytes(0x31, 5), Err(CredsspError::NotASequence));
    assert_eq!(ts_length_bytes(0x30, 5), Ok(0));
    assert_eq!(ts_length_bytes(0x30, 0x82), Ok(2));
    assert_eq!(ts_length_bytes(0x30, 0x80), Err(CredsspError::InvalidLength));
    assert_eq!(ts_message_size(5, &vec![]), Ok(7));
    assert_eq!(ts_message_size(0x82, &vec![1, 0]), Ok(260));
    assert_eq!(ts_message_size(0x82, &vec![0, 200]), Err(CredsspError::NonCanonicalLength));
    assert_eq!(
        ts_message_size(0x84, &vec![0x7f, 0xff, 0xff, 0xff]),
        Err(CredsspError::TooLarge)
    );
    assert_eq!(
        bounded_message(vec![0; MAX_TS_REQUEST_SIZE + 1]).err(),
        Some(CredsspError::TooLarge)
    );
}

#[test]
fn messages_are_written_up_to_the_limit_of_their_lengths() {
    let mut message = TsMessage::bare(6);
    message.nego_tokens = Some(vec![9; 65506]);
    let encoded = write_ts_message(&message).unwrap();
    assert_eq!(encoded.len(), 65535);
    message.nego_tokens = Some(vec![9; 65507]);
    assert_eq!(write_ts_message(&message).err(), Some(CredsspError::TooLarge));
    message.nego_tokens = Some(vec![9; 65506]);
    message.error_code = Some(LOGON_FAILURE);
    assert_eq!(write_ts_message(&message).err(), Some(CredsspError::TooLarge));
    message.nego_tokens = None;
    message.pub_key_auth = Some(vec![9; 100]);
    message.client_nonce = Some([1; 32]);
    let encoded = write_ts_message(&message).unwrap();
    assert_eq!(encoded.len(), 3 + 5 + 104 + 8 + 36);
}

#[test]
fn messages_are_read_back_as_they_were_written() {
    let mut message = TsMessage::bare(6);
    message.nego_tokens = Some(vec![1, 2, 3]);
    message.client_nonce = Some([7; 32]);
    let encoded = write_ts_message(&message).unwrap();
    assert_eq!(encoded[0], 0x30);
    let read = read_ts_message(&encoded).unwrap();
    assert_eq!(read.version, 6);
    assert_eq!(read.nego_tokens, Some(vec![1, 2, 3]));
    assert_eq!(read.client_nonce, Some([7; 32]));
    assert_eq!(read.auth_info, None);
    assert_eq!(read_ts_message(&vec![0x30, 0x01]).err(), Some(CredsspError::Malformed));
    assert_eq!(logon_failure_message().error_code, Some(LOGON_FAILURE));
}

#[test]
fn bindings_hash_the_key_with_the_nonce() {
    let nonce = [9u8; 32];
    let key = vec![1, 2, 3];
    let mut digest = sha2::Sha256::new();
    digest.update(b"CredSSP Client-To-Server Binding Hash\0");
    digest.update(nonce);
    digest.update(&key);
    assert_eq!(client_binding(&nonce, &key), digest.finalize().to_vec());
    assert!(!same_bytes(&client_binding(&nonce, &key), &server_binding(&nonce, &key)));
}

fn client_message(version: u32) -> TsMessage {
    let mut message = TsMessage::bare(version);
    message.nego_tokens = Some(vec![1]);
    message.client_nonce = Some([9; 32]);
    message
}

/// A DER value with a short length.
fn der(tag: u8, content: &[u8]) -> Vec<u8> {
    let mut value = vec![tag, content.len() as u8];
    value.extend_from_slice(content);
    value
}

/// Delegated credentials of a kind.
fn delegated(kind: u8) -> Vec<u8> {
    let text = |at: u8, value: &[u8]| der(0xa0 + at, &der(4, value));
    let mut password = text(0, b"d\0");
    password.extend(text(1, b"u\0"));
    password.extend(text(2, b"p\0"));
    let mut credentials = der(0xa0, &der(2, &[kind]));
    credentials.extend(der(0xa1, &der(4, &der(0x30, &password))));
    der(0x30, &credentials)
}

/// A server that waits for the delegated credentials to be unprotected.
fn before_credentials() -> CredsspServer {
    let key = vec![4, 5, 6];
    let mut server = CredsspServer::new(key.clone());
    let action = server.step(CredsspEvent::Message(client_message(6))).unwrap();
    assert!(matches!(action, CredsspAction::Accept(token) if token == vec![1]));
    let accepted = CredsspEvent::Accepted { output: vec![2], complete: false };
    let action = server.step(accepted).unwrap();
    assert!(matches!(action, CredsspAction::Send(message) if message.nego_tokens == Some(vec![2])));
    let mut message = client_message(6);
    message.pub_key_auth = Some(vec![8]);
    let action = server.step(CredsspEvent::Message(message)).unwrap();
    assert!(matches!(action, CredsspAction::Accept(_)));
    let accepted = CredsspEvent::Accepted { output: vec![], complete: true };
    let action = server.step(accepted).unwrap();
    assert!(matches!(action, CredsspAction::Decrypt(bytes) if bytes == vec![8]));
    let action = server.step(CredsspEvent::Decrypted(client_binding(&[9; 32], &key))).unwrap();
    let expected = server_binding(&[9; 32], &key);
    assert!(matches!(action, CredsspAction::Encrypt(bytes) if bytes == expected));
    let action = server.step(CredsspEvent::Encrypted(vec![3])).unwrap();
    assert!(
        matches!(action, CredsspAction::Send(message) if message.pub_key_auth == Some(vec![3]))
    );
    let mut message = TsMessage::bare(6);
    message.auth_info = Some(vec![10]);
    let action = server.step(CredsspEvent::Message(message)).unwrap();
    assert!(matches!(action, CredsspAction::Decrypt(bytes) if bytes == vec![10]));
    server
}

#[test]
fn a_client_is_let_in_step_by_step() {
    let mut server = before_credentials();
    let action = server.step(CredsspEvent::Decrypted(delegated(1))).unwrap();
    assert!(matches!(action, CredsspAction::QueryAccount));
    let action = server.step(CredsspEvent::Account { allowed: true }).unwrap();
    assert!(matches!(action, CredsspAction::Grant));
    assert_eq!(
        server.step(CredsspEvent::Account { allowed: true }).err(),
        Some(CredsspError::Unexpected)
    );
}

#[test]
fn a_client_with_the_wrong_account_or_credentials_is_refused() {
    let mut server = before_credentials();
    server.step(CredsspEvent::Decrypted(delegated(1))).unwrap();
    assert_eq!(
        server.step(CredsspEvent::Account { allowed: false }).err(),
        Some(CredsspError::AccountNotAllowed)
    );
    let mut server = before_credentials();
    assert_eq!(
        server.step(CredsspEvent::Decrypted(vec![0])).err(),
        Some(CredsspError::Malformed)
    );
    let mut server = before_credentials();
    assert_eq!(
        server.step(CredsspEvent::Decrypted(delegated(9))).err(),
        Some(CredsspError::Malformed)
    );
    let mut server = before_credentials();
    assert_eq!(
        server.take_credentials(Some(false)).err(),
        Some(CredsspError::UnsupportedCredentials)
    );
    let mut server = before_credentials();
    assert!(matches!(server.take_credentials(Some(true)), Ok(CredsspAction::QueryAccount)));
}

#[test]
fn credentials_are_taken_only_when_they_are_due() {
    let mut server = CredsspServer::new(vec![4]);
    assert_eq!(server.take_credentials(Some(true)).err(), Some(CredsspError::Unexpected));
    assert_eq!(
        server.step(CredsspEvent::Account { allowed: true }).err(),
        Some(CredsspError::Unexpected)
    );
}

#[test]
fn each_missing_part_ends_the_exchange() {
    let mut server = CredsspServer::new(vec![4]);
    assert_eq!(
        server.step(CredsspEvent::Message(TsMessage::bare(6))).err(),
        Some(CredsspError::MissingToken)
    );
    let mut server = CredsspServer::new(vec![4]);
    server.step(CredsspEvent::Message(client_message(6))).unwrap();
    let accepted = CredsspEvent::Accepted { output: vec![], complete: true };
    assert_eq!(server.step(accepted).err(), Some(CredsspError::MissingFinalToken));
    let awaiting_binding = || {
        let mut server = CredsspServer::new(vec![4]);
        server.step(CredsspEvent::Message(client_message(6))).unwrap();
        let accepted = CredsspEvent::Accepted { output: vec![2], complete: true };
        server.step(accepted).unwrap();
        server
    };
    assert_eq!(
        awaiting_binding().step(CredsspEvent::Message(TsMessage::bare(6))).err(),
        Some(CredsspError::MissingNonce)
    );
    let mut message = TsMessage::bare(6);
    message.client_nonce = Some([9; 32]);
    let mut server = awaiting_binding();
    assert_eq!(
        server.step(CredsspEvent::Message(message)).err(),
        Some(CredsspError::MissingBinding)
    );
    let mut message = client_message(6);
    message.pub_key_auth = Some(vec![8]);
    let mut server = awaiting_binding();
    server.step(CredsspEvent::Message(message)).unwrap();
    assert_eq!(
        server.step(CredsspEvent::Decrypted(server_binding(&[9; 32], &vec![4]))).err(),
        Some(CredsspError::BindingMismatch)
    );
    let mut message = client_message(6);
    message.pub_key_auth = Some(vec![8]);
    let mut server = awaiting_binding();
    server.step(CredsspEvent::Message(message)).unwrap();
    server.step(CredsspEvent::Decrypted(client_binding(&[9; 32], &vec![4]))).unwrap();
    server.step(CredsspEvent::Encrypted(vec![3])).unwrap();
    assert_eq!(
        server.step(CredsspEvent::Message(TsMessage::bare(6))).err(),
        Some(CredsspError::MissingCredentials)
    );
    let mut server = CredsspServer::new(vec![4]);
    server.step(CredsspEvent::Message(client_message(6))).unwrap();
    let accepted = CredsspEvent::Accepted { output: vec![2], complete: false };
    server.step(accepted).unwrap();
    assert_eq!(
        server.step(CredsspEvent::Message(client_message(5))).err(),
        Some(CredsspError::VersionChanged)
    );
}

#[test]
fn a_client_without_the_key_is_refused() {
    let mut server = CredsspServer::new(vec![4]);
    assert_eq!(
        server.step(CredsspEvent::Message(client_message(4))).err(),
        Some(CredsspError::OldVersion)
    );
    let mut server = CredsspServer::new(vec![4]);
    server.step(CredsspEvent::Message(client_message(6))).unwrap();
    assert_eq!(
        server.step(CredsspEvent::Decrypted(vec![])).err(),
        Some(CredsspError::Unexpected)
    );
}

#[test]
fn answers_of_the_security_package_are_told_apart() {
    assert!(!needs_completion(SEC_E_OK));
    assert!(needs_completion(SEC_I_COMPLETE_NEEDED));
    assert!(needs_completion(SEC_I_COMPLETE_AND_CONTINUE));
    let mut session = NegotiateSession::new();
    assert_eq!(session.ensure_context(), Err(NegotiateError::NoContext));
    assert_eq!(session.set_sizes(16), Err(NegotiateError::NoContext));
    assert_eq!(session.begin_encrypt(1), Err(NegotiateError::NoContext));
    assert_eq!(session.begin_decrypt(1), Err(NegotiateError::NoContext));
    assert_eq!(session.accept(0x8009030c), Err(NegotiateError::Rejected(0x8009030c)));
    assert_eq!(session.accept(SEC_I_CONTINUE_NEEDED), Ok(false));
    assert_eq!(session.begin_encrypt(1), Err(NegotiateError::NoSizes));
    assert_eq!(session.begin_decrypt(1), Err(NegotiateError::NoSizes));
    assert_eq!(session.accept(SEC_I_COMPLETE_NEEDED), Ok(true));
    assert_eq!(session.set_sizes(0), Err(NegotiateError::EmptyTrailer));
    assert_eq!(session.set_sizes(16), Ok(()));
    assert_eq!(session.ensure_context(), Ok(()));
    assert_eq!(token_length(5), Ok(5));
    assert_eq!(token_length(1 << 32), Err(NegotiateError::TokenTooLarge));
}

#[test]
fn protected_messages_carry_their_sequence() {
    let mut session = NegotiateSession::new();
    session.accept(SEC_E_OK).unwrap();
    session.set_sizes(2).unwrap();
    let plan = session.begin_encrypt(3).unwrap();
    assert_eq!((plan.trailer, plan.data, plan.sequence), (2, 3, 0));
    assert_eq!(
        session.finish_encrypt(7, vec![], vec![], 0, 0),
        Err(NegotiateError::EncryptFailed(7))
    );
    assert_eq!(
        session.finish_encrypt(SEC_E_OK, vec![1, 2, 0], vec![3, 4], 2, 9),
        Ok(vec![1, 2, 3, 4])
    );
    assert_eq!(session.begin_encrypt(3).unwrap().sequence, 1);
    assert_eq!(session.begin_encrypt(1 << 32), Err(NegotiateError::PlaintextTooLarge));

    assert_eq!(session.begin_decrypt(1), Err(NegotiateError::Truncated));
    let plan = session.begin_decrypt(4).unwrap();
    assert_eq!((plan.trailer, plan.data, plan.sequence), (2, 2, 0));
    assert_eq!(
        session.finish_decrypt(9, OpenedData::Missing),
        Err(NegotiateError::DecryptFailed(9))
    );
    assert_eq!(
        session.finish_decrypt(SEC_E_OK, OpenedData::Missing),
        Err(NegotiateError::NoData)
    );
    assert_eq!(
        session.finish_decrypt(SEC_E_OK, OpenedData::Invalid),
        Err(NegotiateError::InvalidData)
    );
    assert_eq!(session.finish_decrypt(SEC_E_OK, OpenedData::Bytes(vec![5])), Ok(vec![5]));
    assert_eq!(session.begin_decrypt(4).unwrap().sequence, 3);
    assert_eq!(session.begin_decrypt(3 + (1 << 32)), Err(NegotiateError::CiphertextTooLarge));
}

#[test]
fn the_account_has_a_name() {
    assert_eq!(account_name(&Some(wide("PC\\alice"))), Ok("PC\\alice".to_string()));
    assert_eq!(account_name(&None), Err(NegotiateError::NoAccount));
    assert_eq!(account_name(&Some(vec![0x41])), Err(NegotiateError::UnterminatedAccount));
    let mut long = vec![0x41u16; 32768];
    long.push(0);
    assert_eq!(account_name(&Some(long)), Err(NegotiateError::UnterminatedAccount));
    assert_eq!(account_name(&Some(wide(" "))), Err(NegotiateError::EmptyAccount));
}
