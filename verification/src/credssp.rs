//! Network-level authentication: the server's side of CredSSP.
//!
//! The operating system's security package checks the user and protects the
//! messages; this module decides what is asked of it, what is sent to the client
//! and when the user counts as authenticated.

use sha2::{Digest, Sha256};
use sspi::credssp::{read_ts_credentials, NStatusCode, TsRequest};
use sspi::CredentialsBuffers;
use vstd::prelude::*;

verus! {

/// The size that a message may have, in either direction.
pub const MAX_TS_REQUEST_SIZE: usize = 1048576;

/// The size of the largest message whose 16-bit lengths hold it.
pub const MAX_ENCODED_SIZE: usize = 65535;

/// The status with which a client is turned away.
pub const LOGON_FAILURE: u32 = 0xc000_006d;

/// Why authentication fails.
#[derive(Clone, Copy, Debug, PartialEq, Eq, Structural)]
pub enum CredsspError {
    /// A message is no sequence.
    NotASequence,
    /// The length of a message is malformed.
    InvalidLength,
    /// The length of a message has a leading zero.
    NonCanonicalLength,
    /// A message is too large.
    TooLarge,
    /// A message cannot be read.
    Malformed,
    /// The client speaks a version before 5.
    OldVersion,
    /// The client changed its version.
    VersionChanged,
    /// A token is missing.
    MissingToken,
    /// The security package had nothing left to say to a client that waits.
    MissingFinalToken,
    /// The nonce is missing.
    MissingNonce,
    /// The binding to the connection's key is missing.
    MissingBinding,
    /// The binding is one to another key.
    BindingMismatch,
    /// The delegated credentials are missing.
    MissingCredentials,
    /// The delegated credentials are no password.
    UnsupportedCredentials,
    /// The account may not use this host.
    AccountNotAllowed,
    /// Something arrived that was not asked for.
    Unexpected,
}

/// A message of the protocol.
#[derive(Debug)]
pub struct TsMessage {
    pub version: u32,
    pub nego_tokens: Option<Vec<u8>>,
    pub auth_info: Option<Vec<u8>>,
    pub pub_key_auth: Option<Vec<u8>>,
    pub error_code: Option<u32>,
    pub client_nonce: Option<[u8; 32]>,
}

/// A message of the protocol, as mathematical values.
#[verifier::ext_equal]
pub struct TsMessageModel {
    pub version: u32,
    pub nego_tokens: Option<Seq<u8>>,
    pub auth_info: Option<Seq<u8>>,
    pub pub_key_auth: Option<Seq<u8>>,
    pub error_code: Option<u32>,
    pub client_nonce: Option<Seq<u8>>,
}

/// The bytes of a field that may be missing.
pub open spec fn field_view(field: Option<Vec<u8>>) -> Option<Seq<u8>> {
    match field {
        Some(bytes) => Some(bytes@),
        None => None,
    }
}

/// The number of bytes that hold the length of a value.
pub open spec fn length_size(length: nat) -> nat {
    if length <= 0x7f {
        1
    } else if length <= 0xff {
        2
    } else {
        3
    }
}

/// The size of a value with its tag and its length.
pub open spec fn tagged_size(length: nat) -> nat {
    1 + length_size(length) + length
}

/// The size of an integer with its tag and its length.
pub open spec fn integer_size(value: u32) -> nat {
    if value < 0x80 {
        3
    } else if value < 0x8000 {
        4
    } else if value < 0x80_0000 {
        5
    } else {
        6
    }
}

/// The size of a field of bytes that may be missing: a string of bytes behind the
/// field's own tag.
pub open spec fn field_size(field: Option<Seq<u8>>) -> nat {
    match field {
        Some(bytes) => tagged_size(tagged_size(bytes.len())),
        None => 0,
    }
}

/// The size of the tokens: a field in a list of lists.
pub open spec fn tokens_size(field: Option<Seq<u8>>) -> nat {
    match field {
        Some(bytes) => tagged_size(tagged_size(tagged_size(field_size(field)))),
        None => 0,
    }
}

impl View for TsMessage {
    type V = TsMessageModel;

    open spec fn view(&self) -> TsMessageModel {
        TsMessageModel {
            version: self.version,
            nego_tokens: field_view(self.nego_tokens),
            auth_info: field_view(self.auth_info),
            pub_key_auth: field_view(self.pub_key_auth),
            error_code: self.error_code,
            client_nonce: match self.client_nonce {
                Some(nonce) => Some(nonce@),
                None => None,
            },
        }
    }
}

impl TsMessageModel {
    /// A message that holds nothing but a version.
    pub open spec fn bare(version: u32) -> TsMessageModel {
        TsMessageModel {
            version,
            nego_tokens: None,
            auth_info: None,
            pub_key_auth: None,
            error_code: None,
            client_nonce: None,
        }
    }

    /// Whether the lengths of the message count what is written: a version takes one byte,
    /// and an error code of version 5 is left out of them.
    pub open spec fn keeps_its_lengths(self) -> bool {
        self.version < 0x80 && !(self.version == 5 && self.error_code is Some)
    }

    /// The size that the message has by its lengths: the version in five bytes, the
    /// fields that are there, an error code from version 3 on (though not in version 5)
    /// and a nonce of 32 bytes from version 5 on, behind a header.
    pub open spec fn encoded_size(self) -> nat {
        let error = match self.error_code {
            Some(code) => if self.version >= 3 && self.version != 5 {
                tagged_size(integer_size(code))
            } else {
                0
            },
            None => 0,
        };
        let nonce = if self.client_nonce is Some && self.version >= 5 {
            tagged_size(tagged_size(32))
        } else {
            0
        };
        tagged_size(
            5 + tokens_size(self.nego_tokens) + field_size(self.auth_info) + field_size(
                self.pub_key_auth,
            ) + error + nonce,
        )
    }
}

impl TsMessage {
    /// A message that holds nothing but a version.
    pub fn bare(version: u32) -> (message: Self)
        ensures
            message@ == TsMessageModel::bare(version),
    {
        TsMessage {
            version,
            nego_tokens: None,
            auth_info: None,
            pub_key_auth: None,
            error_code: None,
            client_nonce: None,
        }
    }
}

/// The number of further bytes that hold the length of a message, from its first
/// two bytes: none, or as many as the low bits of the second say.
pub open spec fn length_bytes(first: u8, second: u8) -> Result<nat, CredsspError> {
    if first != 0x30 {
        Err(CredsspError::NotASequence)
    } else if second < 128 {
        Ok(0)
    } else if second == 128 || second > 132 {
        Err(CredsspError::InvalidLength)
    } else {
        Ok((second - 128) as nat)
    }
}

/// The number of further bytes that hold the length of a message.
pub fn ts_length_bytes(first: u8, second: u8) -> (result: Result<usize, CredsspError>)
    ensures
        match length_bytes(first, second) {
            Ok(count) => result matches Ok(more) && more == count,
            Err(expected) => result matches Err(error) && error == expected,
        },
{
    if first != 0x30 {
        Err(CredsspError::NotASequence)
    } else if second < 128 {
        Ok(0)
    } else if second == 128 || second > 132 {
        Err(CredsspError::InvalidLength)
    } else {
        Ok((second - 128) as usize)
    }
}

/// A number whose highest byte comes first.
pub open spec fn big_endian(bytes: Seq<u8>) -> nat
    decreases bytes.len(),
{
    if bytes.len() == 0 {
        0
    } else {
        big_endian(bytes.drop_last()) * 256 + bytes.last() as nat
    }
}

/// The size of a message with its header, from the second byte and the further
/// bytes that hold the length.
pub open spec fn message_size(second: u8, more: Seq<u8>) -> Result<nat, CredsspError> {
    let body = if more.len() == 0 {
        second as nat
    } else {
        big_endian(more)
    };
    if more.len() > 0 && more[0] == 0 {
        Err(CredsspError::NonCanonicalLength)
    } else if 2 + more.len() + body > MAX_TS_REQUEST_SIZE {
        Err(CredsspError::TooLarge)
    } else {
        Ok(2 + more.len() + body)
    }
}

/// The size of a message with its header.
pub fn ts_message_size(second: u8, more: &Vec<u8>) -> (result: Result<usize, CredsspError>)
    requires
        more@.len() <= 4,
    ensures
        match message_size(second, more@) {
            Ok(size) => result matches Ok(total) && total == size,
            Err(expected) => result matches Err(error) && error == expected,
        },
{
    if more.len() > 0 && more[0] == 0 {
        return Err(CredsspError::NonCanonicalLength);
    }
    let mut body: u64 = 0;
    if more.len() == 0 {
        body = second as u64;
    }
    let mut i: usize = 0;
    while i < more.len()
        invariant
            i <= more@.len() <= 4,
            more@.len() > 0 ==> body == big_endian(more@.take(i as int)),
            more@.len() == 0 ==> body == second,
            i == 0 ==> body <= 255,
            i == 1 ==> body <= 0xff,
            i == 2 ==> body <= 0xffff,
            i == 3 ==> body <= 0xff_ffff,
            i == 4 ==> body <= 0xffff_ffff,
        decreases more@.len() - i,
    {
        proof {
            let next = more@.take(i + 1);
            assert(next.drop_last() =~= more@.take(i as int));
            assert(next.last() == more@[i as int]);
            if i == 0 {
                assert(more@.take(0).len() == 0);
            }
        }
        body = body * 256 + more[i] as u64;
        i = i + 1;
    }
    assert(more@.take(more@.len() as int) =~= more@);
    let total: u64 = 2 + more.len() as u64 + body;
    if total > MAX_TS_REQUEST_SIZE as u64 {
        return Err(CredsspError::TooLarge);
    }
    Ok(total as usize)
}

/// What the decoder of the crate `sspi` makes of a message, nothing if it cannot
/// read it.
pub uninterp spec fn decoded_ts_request(encoded: Seq<u8>) -> Option<TsMessageModel>;

/// What the encoder of the crate `sspi` makes of a message.
pub uninterp spec fn encoded_ts_request(message: TsMessageModel) -> Seq<u8>;

/// Reads a message with `TsRequest::from_buffer` of the crate `sspi`, whose result
/// depends on the bytes alone.
#[verifier::external_body]
fn decode_ts_request(encoded: &Vec<u8>) -> (message: Option<TsMessage>)
    ensures
        message is Some <==> decoded_ts_request(encoded@) is Some,
        message matches Some(message) ==> decoded_ts_request(encoded@) == Some(message@),
{
    let request = TsRequest::from_buffer(encoded).ok()?;
    Some(TsMessage {
        version: request.version,
        nego_tokens: request.nego_tokens,
        auth_info: request.auth_info,
        pub_key_auth: request.pub_key_auth,
        error_code: request.error_code.map(|code| code.0),
        client_nonce: request.client_nonce,
    })
}

/// Writes a message with `TsRequest::encode_ts_request` of the crate `sspi`, whose
/// result depends on the message alone. Its lengths, that of the whole message among
/// them (`TsRequest::buffer_len`), are sums of 16-bit numbers, so none may exceed them.
/// It fails only where its output does, and a vector takes every byte. A message that
/// keeps its lengths has the size that they say.
#[verifier::external_body]
fn encode_ts_request(message: &TsMessage) -> (encoded: Vec<u8>)
    requires
        message@.encoded_size() <= MAX_ENCODED_SIZE,
    ensures
        encoded@ == encoded_ts_request(message@),
        message@.keeps_its_lengths() ==> encoded@.len() == message@.encoded_size(),
{
    let request = TsRequest {
        version: message.version,
        nego_tokens: message.nego_tokens.clone(),
        auth_info: message.auth_info.clone(),
        pub_key_auth: message.pub_key_auth.clone(),
        error_code: message.error_code.map(NStatusCode),
        client_nonce: message.client_nonce,
    };
    let mut encoded = Vec::with_capacity(usize::from(request.buffer_len()));
    request.encode_ts_request(&mut encoded).expect("a vector takes every byte");
    encoded
}

/// Reads a message.
pub fn read_ts_message(encoded: &Vec<u8>) -> (result: Result<TsMessage, CredsspError>)
    ensures
        match decoded_ts_request(encoded@) {
            Some(message) => result matches Ok(read) && read@ == message,
            None => result matches Err(error) && error == CredsspError::Malformed,
        },
{
    match decode_ts_request(encoded) {
        Some(message) => Ok(message),
        None => Err(CredsspError::Malformed),
    }
}

fn size_with_tag(length: u64) -> (size: u64)
    requires
        length <= 0xff_ffff,
    ensures
        size == tagged_size(length as nat),
{
    if length <= 0x7f {
        length + 2
    } else if length <= 0xff {
        length + 3
    } else {
        length + 4
    }
}

fn size_of_field(field: &Option<Vec<u8>>) -> (size: u64)
    requires
        field matches Some(bytes) ==> bytes@.len() <= MAX_ENCODED_SIZE,
    ensures
        size == field_size(field_view(*field)),
        size <= MAX_ENCODED_SIZE + 8,
{
    match field {
        Some(bytes) => size_with_tag(size_with_tag(bytes.len() as u64)),
        None => 0,
    }
}

fn size_of_integer(value: u32) -> (size: u64)
    ensures
        size == integer_size(value),
        size <= 6,
{
    if value < 0x80 {
        3
    } else if value < 0x8000 {
        4
    } else if value < 0x80_0000 {
        5
    } else {
        6
    }
}

fn exceeds(field: &Option<Vec<u8>>) -> (longer: bool)
    ensures
        longer == (field matches Some(bytes) && bytes@.len() > MAX_ENCODED_SIZE),
{
    match field {
        Some(bytes) => bytes.len() > MAX_ENCODED_SIZE,
        None => false,
    }
}

/// Whether the lengths of a message hold it.
pub fn fits(message: &TsMessage) -> (fitting: bool)
    ensures
        fitting == (message@.encoded_size() <= MAX_ENCODED_SIZE),
{
    if exceeds(&message.nego_tokens) || exceeds(&message.auth_info) || exceeds(
        &message.pub_key_auth,
    ) {
        return false;
    }
    let mut tokens: u64 = size_of_field(&message.nego_tokens);
    if message.nego_tokens.is_some() {
        tokens = size_with_tag(size_with_tag(size_with_tag(tokens)));
    }
    let error: u64 = match message.error_code {
        Some(code) => if message.version >= 3 && message.version != 5 {
            size_with_tag(size_of_integer(code))
        } else {
            0
        },
        None => 0,
    };
    let nonce: u64 = if message.client_nonce.is_some() && message.version >= 5 {
        36
    } else {
        0
    };
    let size: u64 = size_with_tag(
        5 + tokens + size_of_field(&message.auth_info) + size_of_field(&message.pub_key_auth)
            + error + nonce,
    );
    size <= MAX_ENCODED_SIZE as u64
}

/// The bytes that are sent for an encoded message: all of them, unless they are
/// too many.
pub fn bounded_message(encoded: Vec<u8>) -> (result: Result<Vec<u8>, CredsspError>)
    ensures
        if encoded@.len() <= MAX_TS_REQUEST_SIZE {
            result matches Ok(bytes) && bytes@ == encoded@
        } else {
            result matches Err(error) && error == CredsspError::TooLarge
        },
{
    if encoded.len() > MAX_TS_REQUEST_SIZE {
        Err(CredsspError::TooLarge)
    } else {
        Ok(encoded)
    }
}

/// Writes a message.
pub fn write_ts_message(message: &TsMessage) -> (result: Result<Vec<u8>, CredsspError>)
    ensures
        if message@.encoded_size() > MAX_ENCODED_SIZE {
            result matches Err(error) && error == CredsspError::TooLarge
        } else {
            if encoded_ts_request(message@).len() <= MAX_TS_REQUEST_SIZE {
                result matches Ok(written) && written@ == encoded_ts_request(message@)
            } else {
                result matches Err(error) && error == CredsspError::TooLarge
            }
        },
        message@.keeps_its_lengths() ==> (result is Ok <==> message@.encoded_size()
            <= MAX_ENCODED_SIZE),
        message@.keeps_its_lengths() ==> (result matches Ok(written) ==> written@.len()
            == message@.encoded_size()),
{
    if !fits(message) {
        return Err(CredsspError::TooLarge);
    }
    bounded_message(encode_ts_request(message))
}

/// The message that turns a client away.
pub fn logon_failure_message() -> (message: TsMessage)
    ensures
        message@ == (TsMessageModel {
            error_code: Some(LOGON_FAILURE),
            ..TsMessageModel::bare(6)
        }),
{
    let mut message = TsMessage::bare(6);
    message.error_code = Some(LOGON_FAILURE);
    message
}

/// The text before the nonce in what the client hashes: "CredSSP Client-To-Server
/// Binding Hash" and a zero byte.
pub open spec fn client_magic() -> Seq<u8> {
    seq![
        0x43u8, 0x72, 0x65, 0x64, 0x53, 0x53, 0x50, 0x20, 0x43, 0x6c, 0x69, 0x65, 0x6e, 0x74,
        0x2d, 0x54, 0x6f, 0x2d, 0x53, 0x65, 0x72, 0x76, 0x65, 0x72, 0x20, 0x42, 0x69, 0x6e, 0x64,
        0x69, 0x6e, 0x67, 0x20, 0x48, 0x61, 0x73, 0x68, 0x00,
    ]
}

/// The text before the nonce in what the server hashes: "CredSSP Server-To-Client
/// Binding Hash" and a zero byte.
pub open spec fn server_magic() -> Seq<u8> {
    seq![
        0x43u8, 0x72, 0x65, 0x64, 0x53, 0x53, 0x50, 0x20, 0x53, 0x65, 0x72, 0x76, 0x65, 0x72,
        0x2d, 0x54, 0x6f, 0x2d, 0x43, 0x6c, 0x69, 0x65, 0x6e, 0x74, 0x20, 0x42, 0x69, 0x6e, 0x64,
        0x69, 0x6e, 0x67, 0x20, 0x48, 0x61, 0x73, 0x68, 0x00,
    ]
}

/// The SHA-256 digest of bytes.
pub uninterp spec fn sha256_digest(data: Seq<u8>) -> Seq<u8>;

/// Computes a digest with `Sha256` of the crate `sha2`: 32 bytes that depend on the
/// data alone.
#[verifier::external_body]
fn sha256(data: &Vec<u8>) -> (digest: Vec<u8>)
    ensures
        digest@ == sha256_digest(data@),
        digest@.len() == 32,
{
    Sha256::digest(data).to_vec()
}

/// What a reader of delegated credentials finds: a password, another kind, or
/// nothing that it can read.
pub uninterp spec fn delegated_password(data: Seq<u8>) -> Option<bool>;

/// Reads delegated credentials with `read_ts_credentials` of the crate `sspi`, whose
/// result depends on the bytes alone, and says whether they are a password.
#[verifier::external_body]
fn reads_password(data: &Vec<u8>) -> (found: Option<bool>)
    ensures
        found == delegated_password(data@),
{
    match read_ts_credentials(data.as_slice()) {
        Ok(CredentialsBuffers::AuthIdentity(_)) => Some(true),
        Ok(_) => Some(false),
        Err(_) => None,
    }
}

/// Overwrites bytes with zeros and forgets them, with `Zeroize::zeroize` of the crate
/// `zeroize`: the vector is empty afterwards. That the memory it held was overwritten
/// is what the crate does besides, and no contract can speak of it.
#[verifier::external_body]
fn wipe(bytes: &mut Vec<u8>)
    ensures
        final(bytes)@.len() == 0,
{
    zeroize::Zeroize::zeroize(bytes)
}

/// The hash that binds a direction of the exchange to the connection's key.
pub open spec fn binding(magic: Seq<u8>, nonce: Seq<u8>, public_key: Seq<u8>) -> Seq<u8> {
    sha256_digest(magic + nonce + public_key)
}

fn binding_hash(magic: Vec<u8>, nonce: &[u8; 32], public_key: &Vec<u8>) -> (hash: Vec<u8>)
    ensures
        hash@ == binding(magic@, nonce@, public_key@),
        hash@.len() == 32,
{
    let ghost start = magic@;
    let mut data = magic;
    let mut i: usize = 0;
    while i < 32
        invariant
            i <= 32,
            data@ == start + nonce@.take(i as int),
        decreases 32 - i,
    {
        data.push(nonce[i]);
        i = i + 1;
        assert(data@ =~= start + nonce@.take(i as int));
    }
    assert(nonce@.take(32) =~= nonce@);
    let ghost middle = data@;
    let mut k: usize = 0;
    while k < public_key.len()
        invariant
            k <= public_key@.len(),
            data@ == middle + public_key@.take(k as int),
        decreases public_key@.len() - k,
    {
        data.push(public_key[k]);
        k = k + 1;
        assert(data@ =~= middle + public_key@.take(k as int));
    }
    assert(public_key@.take(public_key@.len() as int) =~= public_key@);
    sha256(&data)
}

/// The hash that the client sends.
pub fn client_binding(nonce: &[u8; 32], public_key: &Vec<u8>) -> (hash: Vec<u8>)
    ensures
        hash@ == binding(client_magic(), nonce@, public_key@),
        hash@.len() == 32,
{
    let magic: Vec<u8> = vec![
        0x43u8, 0x72, 0x65, 0x64, 0x53, 0x53, 0x50, 0x20, 0x43, 0x6c, 0x69, 0x65, 0x6e, 0x74,
        0x2d, 0x54, 0x6f, 0x2d, 0x53, 0x65, 0x72, 0x76, 0x65, 0x72, 0x20, 0x42, 0x69, 0x6e, 0x64,
        0x69, 0x6e, 0x67, 0x20, 0x48, 0x61, 0x73, 0x68, 0x00,
    ];
    assert(magic@ =~= client_magic());
    binding_hash(magic, nonce, public_key)
}

/// The hash that the server sends.
pub fn server_binding(nonce: &[u8; 32], public_key: &Vec<u8>) -> (hash: Vec<u8>)
    ensures
        hash@ == binding(server_magic(), nonce@, public_key@),
        hash@.len() == 32,
{
    let magic: Vec<u8> = vec![
        0x43u8, 0x72, 0x65, 0x64, 0x53, 0x53, 0x50, 0x20, 0x53, 0x65, 0x72, 0x76, 0x65, 0x72,
        0x2d, 0x54, 0x6f, 0x2d, 0x43, 0x6c, 0x69, 0x65, 0x6e, 0x74, 0x20, 0x42, 0x69, 0x6e, 0x64,
        0x69, 0x6e, 0x67, 0x20, 0x48, 0x61, 0x73, 0x68, 0x00,
    ];
    assert(magic@ =~= server_magic());
    binding_hash(magic, nonce, public_key)
}

/// Whether two byte strings are equal.
pub fn same_bytes(a: &Vec<u8>, b: &Vec<u8>) -> (same: bool)
    ensures
        same == (a@ == b@),
{
    if a.len() != b.len() {
        return false;
    }
    let mut i: usize = 0;
    while i < a.len()
        invariant
            i <= a@.len(),
            a@.len() == b@.len(),
            forall|k: int| 0 <= k < i ==> a@[k] == b@[k],
        decreases a@.len() - i,
    {
        if a[i] != b[i] {
            return false;
        }
        i = i + 1;
    }
    assert(a@ =~= b@);
    true
}

/// What the exchange is waiting for.
#[allow(inconsistent_fields)]
#[verifier::ext_equal]
pub enum PhaseModel {
    /// The client's first message.
    Start,
    /// What the security package says to the client's token. The binding and the
    /// nonce came with the token.
    Accepting { peer: u32, binding: Option<Seq<u8>>, nonce: Option<Seq<u8>> },
    /// The client's next token.
    Negotiating { peer: u32 },
    /// The client's binding.
    AwaitBinding { peer: u32 },
    /// The client's binding, unprotected.
    CheckBinding { peer: u32, nonce: Seq<u8> },
    /// The server's binding, protected.
    SealBinding { peer: u32 },
    /// The client's credentials.
    AwaitCredentials { peer: u32 },
    /// The client's credentials, unprotected.
    CheckCredentials,
    /// Whether the account may use this host.
    AwaitAccount,
    /// Nothing more.
    Finished,
}

/// Something that happened.
#[verifier::ext_equal]
pub enum EventModel {
    Message(TsMessageModel),
    Accepted { output: Seq<u8>, complete: bool },
    Decrypted(Seq<u8>),
    Encrypted(Seq<u8>),
    Account { allowed: bool },
}

/// Something that is to be done.
#[verifier::ext_equal]
pub enum ActionModel {
    /// Hand a token to the security package.
    Accept(Seq<u8>),
    /// Send a message and read the next one.
    Send(TsMessageModel),
    /// Unprotect bytes.
    Decrypt(Seq<u8>),
    /// Protect bytes.
    Encrypt(Seq<u8>),
    /// Ask the security package for the account, and check it.
    QueryAccount,
    /// Let the user in.
    Grant,
}

/// The version that both sides speak.
pub open spec fn peer_version(version: u32) -> u32 {
    if version < 6 {
        version
    } else {
        6
    }
}

/// The end of an exchange that fails.
pub open spec fn failed(error: CredsspError) -> (PhaseModel, Result<ActionModel, CredsspError>) {
    (PhaseModel::Finished, Err(error))
}

/// What a message with a token leads to.
pub open spec fn token_step(peer: u32, message: TsMessageModel) -> (
    PhaseModel,
    Result<ActionModel, CredsspError>,
) {
    if peer_version(message.version) != peer {
        failed(CredsspError::VersionChanged)
    } else {
        match message.nego_tokens {
            Some(token) => (
                PhaseModel::Accepting {
                    peer,
                    binding: message.pub_key_auth,
                    nonce: message.client_nonce,
                },
                Ok(ActionModel::Accept(token)),
            ),
            None => failed(CredsspError::MissingToken),
        }
    }
}

/// What a binding with its nonce leads to.
pub open spec fn binding_step(peer: u32, binding: Option<Seq<u8>>, nonce: Option<Seq<u8>>) -> (
    PhaseModel,
    Result<ActionModel, CredsspError>,
) {
    match nonce {
        Some(nonce) => match binding {
            Some(protected) => (
                PhaseModel::CheckBinding { peer, nonce },
                Ok(ActionModel::Decrypt(protected)),
            ),
            None => failed(CredsspError::MissingBinding),
        },
        None => failed(CredsspError::MissingNonce),
    }
}

/// What an event leads to: the next phase, and what is to be done or why the
/// exchange fails.
pub open spec fn credssp_step(public_key: Seq<u8>, phase: PhaseModel, event: EventModel) -> (
    PhaseModel,
    Result<ActionModel, CredsspError>,
) {
    match (phase, event) {
        (PhaseModel::Start, EventModel::Message(message)) => if message.version < 5 {
            failed(CredsspError::OldVersion)
        } else {
            token_step(peer_version(message.version), message)
        },
        (PhaseModel::Negotiating { peer }, EventModel::Message(message)) => token_step(
            peer,
            message,
        ),
        (
            PhaseModel::Accepting { peer, binding, nonce },
            EventModel::Accepted { output, complete },
        ) => {
            let reply = TsMessageModel {
                nego_tokens: Some(output),
                ..TsMessageModel::bare(peer)
            };
            if !complete {
                (PhaseModel::Negotiating { peer }, Ok(ActionModel::Send(reply)))
            } else if binding is Some {
                binding_step(peer, binding, nonce)
            } else if output.len() == 0 {
                failed(CredsspError::MissingFinalToken)
            } else {
                (PhaseModel::AwaitBinding { peer }, Ok(ActionModel::Send(reply)))
            }
        },
        (PhaseModel::AwaitBinding { peer }, EventModel::Message(message)) => binding_step(
            peer,
            message.pub_key_auth,
            message.client_nonce,
        ),
        (PhaseModel::CheckBinding { peer, nonce }, EventModel::Decrypted(received)) => if received
            != binding(client_magic(), nonce, public_key) {
            failed(CredsspError::BindingMismatch)
        } else {
            (
                PhaseModel::SealBinding { peer },
                Ok(ActionModel::Encrypt(binding(server_magic(), nonce, public_key))),
            )
        },
        (PhaseModel::SealBinding { peer }, EventModel::Encrypted(protected)) => (
            PhaseModel::AwaitCredentials { peer },
            Ok(
                ActionModel::Send(
                    TsMessageModel {
                        pub_key_auth: Some(protected),
                        ..TsMessageModel::bare(peer)
                    },
                ),
            ),
        ),
        (PhaseModel::AwaitCredentials { peer }, EventModel::Message(message)) => if peer_version(
            message.version,
        ) != peer {
            failed(CredsspError::VersionChanged)
        } else {
            match message.auth_info {
                Some(protected) => (
                    PhaseModel::CheckCredentials,
                    Ok(ActionModel::Decrypt(protected)),
                ),
                None => failed(CredsspError::MissingCredentials),
            }
        },
        (PhaseModel::CheckCredentials, EventModel::Decrypted(credentials)) => credentials_step(
            delegated_password(credentials),
        ),
        (PhaseModel::AwaitAccount, EventModel::Account { allowed }) => if allowed {
            (PhaseModel::Finished, Ok(ActionModel::Grant))
        } else {
            failed(CredsspError::AccountNotAllowed)
        },
        _ => failed(CredsspError::Unexpected),
    }
}

/// What delegated credentials lead to, once they are read.
pub open spec fn credentials_step(found: Option<bool>) -> (
    PhaseModel,
    Result<ActionModel, CredsspError>,
) {
    match found {
        Some(true) => (PhaseModel::AwaitAccount, Ok(ActionModel::QueryAccount)),
        Some(false) => failed(CredsspError::UnsupportedCredentials),
        None => failed(CredsspError::Malformed),
    }
}

/// What delegated credentials lead to in a phase: they are expected only where they
/// have just been unprotected.
pub open spec fn credentials_in(phase: PhaseModel, found: Option<bool>) -> (
    PhaseModel,
    Result<ActionModel, CredsspError>,
) {
    if phase == PhaseModel::CheckCredentials {
        credentials_step(found)
    } else {
        failed(CredsspError::Unexpected)
    }
}

#[allow(inconsistent_fields)]
enum Phase {
    Start,
    Accepting { peer: u32, binding: Option<Vec<u8>>, nonce: Option<[u8; 32]> },
    Negotiating { peer: u32 },
    AwaitBinding { peer: u32 },
    CheckBinding { peer: u32, nonce: [u8; 32] },
    SealBinding { peer: u32 },
    AwaitCredentials { peer: u32 },
    CheckCredentials,
    AwaitAccount,
    Finished,
}

spec fn nonce_view(nonce: Option<[u8; 32]>) -> Option<Seq<u8>> {
    match nonce {
        Some(nonce) => Some(nonce@),
        None => None,
    }
}

spec fn phase_view(phase: Phase) -> PhaseModel {
    match phase {
        Phase::Start => PhaseModel::Start,
        Phase::Accepting { peer, binding, nonce } => PhaseModel::Accepting {
            peer,
            binding: field_view(binding),
            nonce: nonce_view(nonce),
        },
        Phase::Negotiating { peer } => PhaseModel::Negotiating { peer },
        Phase::AwaitBinding { peer } => PhaseModel::AwaitBinding { peer },
        Phase::CheckBinding { peer, nonce } => PhaseModel::CheckBinding { peer, nonce: nonce@ },
        Phase::SealBinding { peer } => PhaseModel::SealBinding { peer },
        Phase::AwaitCredentials { peer } => PhaseModel::AwaitCredentials { peer },
        Phase::CheckCredentials => PhaseModel::CheckCredentials,
        Phase::AwaitAccount => PhaseModel::AwaitAccount,
        Phase::Finished => PhaseModel::Finished,
    }
}

/// Something that happened.
pub enum CredsspEvent {
    /// The client sent a message.
    Message(TsMessage),
    /// The security package took a token.
    Accepted { output: Vec<u8>, complete: bool },
    /// Bytes were unprotected.
    Decrypted(Vec<u8>),
    /// Bytes were protected.
    Encrypted(Vec<u8>),
    /// The account was checked.
    Account { allowed: bool },
}

impl View for CredsspEvent {
    type V = EventModel;

    open spec fn view(&self) -> EventModel {
        match *self {
            CredsspEvent::Message(message) => EventModel::Message(message@),
            CredsspEvent::Accepted { output, complete } => EventModel::Accepted {
                output: output@,
                complete,
            },
            CredsspEvent::Decrypted(bytes) => EventModel::Decrypted(bytes@),
            CredsspEvent::Encrypted(bytes) => EventModel::Encrypted(bytes@),
            CredsspEvent::Account { allowed } => EventModel::Account { allowed },
        }
    }
}

/// Something that is to be done.
pub enum CredsspAction {
    /// Hand a token to the security package.
    Accept(Vec<u8>),
    /// Send a message and read the next one.
    Send(TsMessage),
    /// Unprotect bytes.
    Decrypt(Vec<u8>),
    /// Protect bytes.
    Encrypt(Vec<u8>),
    /// Ask the security package for the account, and check it.
    QueryAccount,
    /// Let the user in.
    Grant,
}

impl View for CredsspAction {
    type V = ActionModel;

    open spec fn view(&self) -> ActionModel {
        match *self {
            CredsspAction::Accept(bytes) => ActionModel::Accept(bytes@),
            CredsspAction::Send(message) => ActionModel::Send(message@),
            CredsspAction::Decrypt(bytes) => ActionModel::Decrypt(bytes@),
            CredsspAction::Encrypt(bytes) => ActionModel::Encrypt(bytes@),
            CredsspAction::QueryAccount => ActionModel::QueryAccount,
            CredsspAction::Grant => ActionModel::Grant,
        }
    }
}

/// What a step says, as mathematical values.
pub open spec fn step_view(result: Result<CredsspAction, CredsspError>) -> Result<
    ActionModel,
    CredsspError,
> {
    match result {
        Ok(action) => Ok(action@),
        Err(error) => Err(error),
    }
}

/// The server's side of one exchange.
pub struct CredsspServer {
    public_key: Vec<u8>,
    phase: Phase,
}

impl CredsspServer {
    /// The key of the connection that protects the exchange.
    pub closed spec fn key(self) -> Seq<u8> {
        self.public_key@
    }

    /// What the exchange is waiting for.
    pub closed spec fn phase(self) -> PhaseModel {
        phase_view(self.phase)
    }

    /// An exchange over a connection with the given key.
    pub fn new(public_key: Vec<u8>) -> (server: Self)
        ensures
            server.key() == public_key@,
            server.phase() == PhaseModel::Start,
    {
        CredsspServer { public_key, phase: Phase::Start }
    }

    fn take_token(&mut self, peer: u32, message: TsMessage) -> (result: Result<
        CredsspAction,
        CredsspError,
    >)
        requires
            old(self).phase() == PhaseModel::Finished,
        ensures
            final(self).key() == old(self).key(),
            (final(self).phase(), step_view(result)) == token_step(peer, message@),
    {
        let version: u32 = if message.version < 6 {
            message.version
        } else {
            6
        };
        if version != peer {
            return Err(CredsspError::VersionChanged);
        }
        match message.nego_tokens {
            Some(token) => {
                self.phase = Phase::Accepting {
                    peer,
                    binding: message.pub_key_auth,
                    nonce: message.client_nonce,
                };
                Ok(CredsspAction::Accept(token))
            },
            None => Err(CredsspError::MissingToken),
        }
    }

    fn take_binding(
        &mut self,
        peer: u32,
        binding: Option<Vec<u8>>,
        nonce: Option<[u8; 32]>,
    ) -> (result: Result<CredsspAction, CredsspError>)
        requires
            old(self).phase() == PhaseModel::Finished,
        ensures
            final(self).key() == old(self).key(),
            (final(self).phase(), step_view(result)) == binding_step(
                peer,
                field_view(binding),
                nonce_view(nonce),
            ),
    {
        match nonce {
            Some(nonce) => match binding {
                Some(protected) => {
                    self.phase = Phase::CheckBinding { peer, nonce };
                    Ok(CredsspAction::Decrypt(protected))
                },
                None => Err(CredsspError::MissingBinding),
            },
            None => Err(CredsspError::MissingNonce),
        }
    }

    /// Goes on with delegated credentials once they are read: `found` says whether
    /// they are a password. Where no credentials are expected the exchange fails.
    pub fn take_credentials(&mut self, found: Option<bool>) -> (result: Result<
        CredsspAction,
        CredsspError,
    >)
        ensures
            final(self).key() == old(self).key(),
            (final(self).phase(), step_view(result)) == credentials_in(old(self).phase(), found),
    {
        let mut phase = Phase::Finished;
        std::mem::swap(&mut phase, &mut self.phase);
        match phase {
            Phase::CheckCredentials => self.judge_credentials(found),
            _ => Err(CredsspError::Unexpected),
        }
    }

    fn judge_credentials(&mut self, found: Option<bool>) -> (result: Result<
        CredsspAction,
        CredsspError,
    >)
        requires
            old(self).phase() == PhaseModel::Finished,
        ensures
            final(self).key() == old(self).key(),
            (final(self).phase(), step_view(result)) == credentials_step(found),
    {
        match found {
            Some(password) => if password {
                self.phase = Phase::AwaitAccount;
                Ok(CredsspAction::QueryAccount)
            } else {
                Err(CredsspError::UnsupportedCredentials)
            },
            None => Err(CredsspError::Malformed),
        }
    }

    /// Takes an event and says what is to be done next, or why the exchange fails.
    pub fn step(&mut self, event: CredsspEvent) -> (result: Result<CredsspAction, CredsspError>)
        ensures
            final(self).key() == old(self).key(),
            (final(self).phase(), step_view(result)) == credssp_step(
                old(self).key(),
                old(self).phase(),
                event@,
            ),
    {
        let mut phase = Phase::Finished;
        std::mem::swap(&mut phase, &mut self.phase);
        match (phase, event) {
            (Phase::Start, CredsspEvent::Message(message)) => {
                if message.version < 5 {
                    return Err(CredsspError::OldVersion);
                }
                let peer: u32 = if message.version < 6 {
                    message.version
                } else {
                    6
                };
                self.take_token(peer, message)
            },
            (Phase::Negotiating { peer }, CredsspEvent::Message(message)) => self.take_token(
                peer,
                message,
            ),
            (
                Phase::Accepting { peer, binding, nonce },
                CredsspEvent::Accepted { output, complete },
            ) => {
                if complete && binding.is_some() {
                    return self.take_binding(peer, binding, nonce);
                }
                if complete && output.len() == 0 {
                    return Err(CredsspError::MissingFinalToken);
                }
                self.phase = if complete {
                    Phase::AwaitBinding { peer }
                } else {
                    Phase::Negotiating { peer }
                };
                let mut reply = TsMessage::bare(peer);
                reply.nego_tokens = Some(output);
                Ok(CredsspAction::Send(reply))
            },
            (Phase::AwaitBinding { peer }, CredsspEvent::Message(message)) => self.take_binding(
                peer,
                message.pub_key_auth,
                message.client_nonce,
            ),
            (Phase::CheckBinding { peer, nonce }, CredsspEvent::Decrypted(received)) => {
                let expected = client_binding(&nonce, &self.public_key);
                if !same_bytes(&received, &expected) {
                    return Err(CredsspError::BindingMismatch);
                }
                self.phase = Phase::SealBinding { peer };
                Ok(CredsspAction::Encrypt(server_binding(&nonce, &self.public_key)))
            },
            (Phase::SealBinding { peer }, CredsspEvent::Encrypted(protected)) => {
                self.phase = Phase::AwaitCredentials { peer };
                let mut reply = TsMessage::bare(peer);
                reply.pub_key_auth = Some(protected);
                Ok(CredsspAction::Send(reply))
            },
            (Phase::AwaitCredentials { peer }, CredsspEvent::Message(message)) => {
                let version: u32 = if message.version < 6 {
                    message.version
                } else {
                    6
                };
                if version != peer {
                    return Err(CredsspError::VersionChanged);
                }
                match message.auth_info {
                    Some(protected) => {
                        self.phase = Phase::CheckCredentials;
                        Ok(CredsspAction::Decrypt(protected))
                    },
                    None => Err(CredsspError::MissingCredentials),
                }
            },
            (Phase::CheckCredentials, CredsspEvent::Decrypted(credentials)) => {
                let found = reads_password(&credentials);
                let mut spent = credentials;
                wipe(&mut spent);
                self.judge_credentials(found)
            },
            (Phase::AwaitAccount, CredsspEvent::Account { allowed }) => if allowed {
                Ok(CredsspAction::Grant)
            } else {
                Err(CredsspError::AccountNotAllowed)
            },
            _ => Err(CredsspError::Unexpected),
        }
    }
}

/// The place of a phase in the exchange.
pub open spec fn phase_rank(phase: PhaseModel) -> int {
    match phase {
        PhaseModel::Start => 0,
        PhaseModel::Accepting { .. } => 1,
        PhaseModel::Negotiating { .. } => 1,
        PhaseModel::AwaitBinding { .. } => 2,
        PhaseModel::CheckBinding { .. } => 3,
        PhaseModel::SealBinding { .. } => 4,
        PhaseModel::AwaitCredentials { .. } => 5,
        PhaseModel::CheckCredentials => 6,
        PhaseModel::AwaitAccount => 7,
        PhaseModel::Finished => 8,
    }
}

/// A user is let in only at the very end: the exchange was waiting for the account
/// to be checked, and it was allowed.
pub proof fn law_only_an_allowed_account_is_let_in(
    public_key: Seq<u8>,
    phase: PhaseModel,
    event: EventModel,
)
    requires
        credssp_step(public_key, phase, event).1 == Ok::<ActionModel, CredsspError>(
            ActionModel::Grant,
        ),
    ensures
        phase == PhaseModel::AwaitAccount,
        event == (EventModel::Account { allowed: true }),
{
}

/// No check can be skipped: the account is asked for only after delegated
/// credentials were read as a password, these are taken only after the server's
/// binding was sent, and that is computed only for a client whose own binding is
/// the one to this connection's key.
pub proof fn law_checks_come_in_order(
    public_key: Seq<u8>,
    phase: PhaseModel,
    event: EventModel,
    found: Option<bool>,
)
    ensures
        credentials_in(phase, found).0 == PhaseModel::AwaitAccount ==> phase
            == PhaseModel::CheckCredentials && found == Some(true),
        credentials_in(phase, found).1 != Ok::<ActionModel, CredsspError>(ActionModel::Grant),
        ({
            let next = credssp_step(public_key, phase, event).0;
            &&& next == PhaseModel::AwaitAccount ==> phase == PhaseModel::CheckCredentials && (
            event matches EventModel::Decrypted(credentials) && delegated_password(credentials)
                == Some(true))
            &&& next == PhaseModel::CheckCredentials ==> phase is AwaitCredentials
            &&& next is AwaitCredentials ==> phase is SealBinding
            &&& next is SealBinding ==> (phase matches PhaseModel::CheckBinding { peer, nonce }
                && event == EventModel::Decrypted(binding(client_magic(), nonce, public_key)))
            &&& next is CheckBinding ==> phase is Accepting || phase is AwaitBinding
        }),
{
}

/// The exchange never goes back, and once it has failed or ended nothing revives
/// it.
pub proof fn law_exchange_never_goes_back(
    public_key: Seq<u8>,
    phase: PhaseModel,
    event: EventModel,
    found: Option<bool>,
)
    ensures
        phase_rank(credentials_in(phase, found).0) >= phase_rank(phase),
        credentials_in(phase, found).1 is Err ==> credentials_in(phase, found).0
            == PhaseModel::Finished,
        phase_rank(credssp_step(public_key, phase, event).0) >= phase_rank(phase),
        credssp_step(public_key, phase, event).1 is Err ==> credssp_step(
            public_key,
            phase,
            event,
        ).0 == PhaseModel::Finished,
        phase == PhaseModel::Finished ==> credssp_step(public_key, phase, event).1 is Err,
{
}

/// The length of a message is its second byte, or as many bytes behind that as it says
/// beyond 128: one to four, of which the first is not zero. The whole may have 1048576
/// bytes.
pub proof fn law_messages_tell_their_length(first: u8, second: u8, more: Seq<u8>)
    ensures
        first != 0x30 <==> length_bytes(first, second) == Err::<nat, CredsspError>(
            CredsspError::NotASequence,
        ),
        first == 0x30 && second < 128 ==> length_bytes(first, second) == Ok::<nat, CredsspError>(0),
        first == 0x30 && 129 <= second <= 132 ==> length_bytes(first, second) == Ok::<
            nat,
            CredsspError,
        >((second - 128) as nat),
        first == 0x30 && (second == 128 || second > 132) ==> length_bytes(first, second) == Err::<
            nat,
            CredsspError,
        >(CredsspError::InvalidLength),
        message_size(second, Seq::empty()) == Ok::<nat, CredsspError>((2 + second) as nat),
        more.len() > 0 && more[0] == 0 ==> message_size(second, more) == Err::<nat, CredsspError>(
            CredsspError::NonCanonicalLength,
        ),
        more.len() == 1 && more[0] != 0 ==> message_size(second, more) == Ok::<nat, CredsspError>(
            (3 + more[0]) as nat,
        ),
        more.len() == 2 && more[0] != 0 ==> message_size(second, more) == Ok::<nat, CredsspError>(
            (4 + 256 * more[0] + more[1]) as nat,
        ),
        more.len() > 0 && more[0] != 0 && 2 + more.len() + big_endian(more) > 1048576
            ==> message_size(second, more) == Err::<nat, CredsspError>(CredsspError::TooLarge),
        more.len() > 0 ==> big_endian(more) == 256 * big_endian(more.drop_last()) + more.last(),
{
    reveal_with_fuel(big_endian, 3);
    if more.len() == 1 {
        assert(more.drop_last() =~= Seq::<u8>::empty());
    }
    if more.len() == 2 {
        assert(more.drop_last().drop_last() =~= Seq::<u8>::empty());
        assert(more.drop_last().last() == more[0]);
    }
}

/// The size of what is written grows with its contents: a tag, one byte for a length of up
/// to 127, two up to 255 and three beyond, and the contents.
pub proof fn law_tags_take_their_room(length: nat)
    ensures
        length <= 127 ==> tagged_size(length) == length + 2,
        128 <= length <= 255 ==> tagged_size(length) == length + 3,
        length > 255 ==> tagged_size(length) == length + 4,
        field_size(None) == 0,
{
}

/// The text that a client binds to the connection's key, and that of the server, each with a
/// zero behind it.
pub proof fn law_bindings_have_their_texts(i: int)
    ensures
        client_magic().len() == 38 && server_magic().len() == 38,
        client_magic()[37] == 0 && server_magic()[37] == 0,
        0 <= i < 37 ==> client_magic()[i] as u32 == "CredSSP Client-To-Server Binding Hash"@[i]
            as u32,
        0 <= i < 37 ==> server_magic()[i] as u32 == "CredSSP Server-To-Client Binding Hash"@[i]
            as u32,
{
    reveal_strlit("CredSSP Client-To-Server Binding Hash");
    reveal_strlit("CredSSP Server-To-Client Binding Hash");
}

/// A binding is the digest of its text, the nonce and the key, one behind the other.
pub proof fn law_bindings_cover_nonce_and_key(
    magic: Seq<u8>,
    nonce: Seq<u8>,
    public_key: Seq<u8>,
    whole: Seq<u8>,
)
    requires
        whole.len() == magic.len() + nonce.len() + public_key.len(),
        whole.take(magic.len() as int) == magic,
        whole.subrange(magic.len() as int, (magic.len() + nonce.len()) as int) == nonce,
        whole.skip((magic.len() + nonce.len()) as int) == public_key,
    ensures
        binding(magic, nonce, public_key) == sha256_digest(whole),
{
    assert forall|i: int| 0 <= i < whole.len() implies whole[i] == (magic + nonce + public_key)[i] by {
        if i < magic.len() {
            assert(whole.take(magic.len() as int)[i] == magic[i]);
        } else if i < magic.len() + nonce.len() {
            assert(whole.subrange(magic.len() as int, (magic.len() + nonce.len()) as int)[i
                - magic.len()] == nonce[i - magic.len()]);
        } else {
            assert(whole.skip((magic.len() + nonce.len()) as int)[i - magic.len() - nonce.len()]
                == public_key[i - magic.len() - nonce.len()]);
        }
    }
    assert(whole =~= magic + nonce + public_key);
}

/// A client's first message is taken exactly if it speaks version 5 at least and brings a
/// token, which goes to the security package; of later versions the sixth is spoken. What
/// else the message brings is kept for later.
pub proof fn law_first_token_is_accepted(public_key: Seq<u8>, message: TsMessageModel)
    ensures
        ({
            let (next, action) = credssp_step(
                public_key,
                PhaseModel::Start,
                EventModel::Message(message),
            );
            let peer: u32 = if message.version >= 6 { 6 } else { message.version };
            &&& action is Ok <==> message.version >= 5 && message.nego_tokens is Some
            &&& message.version < 5 ==> action == Err::<ActionModel, CredsspError>(
                CredsspError::OldVersion,
            )
            &&& message.version >= 5 && message.nego_tokens is None ==> action == Err::<
                ActionModel,
                CredsspError,
            >(CredsspError::MissingToken)
            &&& action matches Ok(action) ==> action == ActionModel::Accept(
                message.nego_tokens->0,
            ) && next == (PhaseModel::Accepting {
                peer,
                binding: message.pub_key_auth,
                nonce: message.client_nonce,
            })
        }),
{
}

/// While the package is not satisfied its token is sent, and the next one of the client, of
/// the same version, goes to the package again.
pub proof fn law_tokens_go_back_and_forth(
    public_key: Seq<u8>,
    peer: u32,
    binding: Option<Seq<u8>>,
    nonce: Option<Seq<u8>>,
    output: Seq<u8>,
    message: TsMessageModel,
)
    ensures
        ({
            let accepting = PhaseModel::Accepting { peer, binding, nonce };
            let (waiting, reply) = credssp_step(
                public_key,
                accepting,
                EventModel::Accepted { output, complete: false },
            );
            let (next, action) = credssp_step(public_key, waiting, EventModel::Message(message));
            let same = message.version == peer || (message.version > 6 && peer == 6);
            &&& reply matches Ok(ActionModel::Send(sent)) && sent.version == peer
                && sent.nego_tokens == Some(output) && sent.pub_key_auth is None && sent.auth_info
                is None && sent.error_code is None && sent.client_nonce is None
            &&& peer <= 6 && same && message.nego_tokens is Some ==> action == Ok::<
                ActionModel,
                CredsspError,
            >(ActionModel::Accept(message.nego_tokens->0)) && next is Accepting
            &&& peer <= 6 && !same ==> action == Err::<ActionModel, CredsspError>(
                CredsspError::VersionChanged,
            )
        }),
{
}

/// Once the package is satisfied the client's binding is opened, be it in the message that
/// completed the exchange or in the next one; a binding without a nonce is refused. A
/// client that is still to send one is sent the package's last token.
pub proof fn law_binding_follows_the_tokens(
    public_key: Seq<u8>,
    peer: u32,
    protected: Seq<u8>,
    nonce: Seq<u8>,
    output: Seq<u8>,
    message: TsMessageModel,
)
    ensures
        ({
            let complete = EventModel::Accepted { output, complete: true };
            let opened = (
                PhaseModel::CheckBinding { peer, nonce },
                Ok::<ActionModel, CredsspError>(ActionModel::Decrypt(protected)),
            );
            let early = PhaseModel::Accepting {
                peer,
                binding: Some(protected),
                nonce: Some(nonce),
            };
            let bare = PhaseModel::Accepting { peer, binding: Some(protected), nonce: None };
            let late = PhaseModel::Accepting { peer, binding: None, nonce: None };
            let (waiting, reply) = credssp_step(public_key, late, complete);
            &&& credssp_step(public_key, early, complete) == opened
            &&& credssp_step(public_key, bare, complete).1 == Err::<ActionModel, CredsspError>(
                CredsspError::MissingNonce,
            )
            &&& output.len() == 0 ==> reply == Err::<ActionModel, CredsspError>(
                CredsspError::MissingFinalToken,
            )
            &&& output.len() > 0 ==> (reply matches Ok(ActionModel::Send(sent)) && sent.version
                == peer && sent.nego_tokens == Some(output))
            &&& output.len() > 0 && message.pub_key_auth == Some(protected)
                && message.client_nonce == Some(nonce) ==> credssp_step(
                public_key,
                waiting,
                EventModel::Message(message),
            ) == opened
            &&& output.len() > 0 && message.pub_key_auth is None && message.client_nonce is Some
                ==> credssp_step(public_key, waiting, EventModel::Message(message)).1 == Err::<
                ActionModel,
                CredsspError,
            >(CredsspError::MissingBinding)
        }),
{
}

/// A client whose binding is the one to this connection's key is answered with the server's
/// own; every other one is refused.
pub proof fn law_binding_is_answered(
    public_key: Seq<u8>,
    peer: u32,
    nonce: Seq<u8>,
    received: Seq<u8>,
    protected: Seq<u8>,
)
    ensures
        ({
            let (next, action) = credssp_step(
                public_key,
                PhaseModel::CheckBinding { peer, nonce },
                EventModel::Decrypted(received),
            );
            let own = sha256_digest(client_magic() + nonce + public_key);
            let answer = sha256_digest(server_magic() + nonce + public_key);
            let (after, sent) = credssp_step(public_key, next, EventModel::Encrypted(protected));
            &&& received != own ==> action == Err::<ActionModel, CredsspError>(
                CredsspError::BindingMismatch,
            )
            &&& received == own ==> action == Ok::<ActionModel, CredsspError>(
                ActionModel::Encrypt(answer),
            )
            &&& received == own ==> (sent matches Ok(ActionModel::Send(message))
                && message.version == peer && message.pub_key_auth == Some(protected)
                && message.nego_tokens is None && message.auth_info is None) && after == (
            PhaseModel::AwaitCredentials { peer })
        }),
{
}

/// The delegated credentials are opened and must be a password; the account behind them is
/// asked for, and its user let in exactly if it may use this host.
pub proof fn law_account_decides_at_last(
    public_key: Seq<u8>,
    peer: u32,
    message: TsMessageModel,
    credentials: Seq<u8>,
    allowed: bool,
)
    requires
        peer <= 6,
    ensures
        ({
            let same = message.version == peer || (message.version > 6 && peer == 6);
            let (checking, opened) = credssp_step(
                public_key,
                PhaseModel::AwaitCredentials { peer },
                EventModel::Message(message),
            );
            let (asking, asked) = credssp_step(
                public_key,
                PhaseModel::CheckCredentials,
                EventModel::Decrypted(credentials),
            );
            let (last, decision) = credssp_step(
                public_key,
                PhaseModel::AwaitAccount,
                EventModel::Account { allowed },
            );
            &&& !same ==> opened == Err::<ActionModel, CredsspError>(CredsspError::VersionChanged)
            &&& same && message.auth_info is None ==> opened == Err::<ActionModel, CredsspError>(
                CredsspError::MissingCredentials,
            )
            &&& same && message.auth_info is Some ==> checking == PhaseModel::CheckCredentials
                && opened == Ok::<ActionModel, CredsspError>(
                ActionModel::Decrypt(message.auth_info->0),
            )
            &&& delegated_password(credentials) == Some(true) <==> asked == Ok::<
                ActionModel,
                CredsspError,
            >(ActionModel::QueryAccount)
            &&& delegated_password(credentials) == Some(true) ==> asking
                == PhaseModel::AwaitAccount
            &&& delegated_password(credentials) == Some(false) ==> asked == Err::<
                ActionModel,
                CredsspError,
            >(CredsspError::UnsupportedCredentials)
            &&& delegated_password(credentials) is None ==> asked == Err::<
                ActionModel,
                CredsspError,
            >(CredsspError::Malformed)
            &&& allowed <==> decision == Ok::<ActionModel, CredsspError>(ActionModel::Grant)
            &&& !allowed ==> decision == Err::<ActionModel, CredsspError>(
                CredsspError::AccountNotAllowed,
            )
            &&& last == PhaseModel::Finished
        }),
{
}

/// The size of a message is what its fields take: nothing where they are missing, and each in
/// its tags otherwise, a token in three more. A number takes as many bytes as it needs with
/// its sign. An error code is written from version 3 on but not in version 5, a nonce from
/// version 5 on.
pub proof fn law_messages_take_their_room(message: TsMessageModel, value: u32, bytes: Seq<u8>)
    ensures
        integer_size(value) == if value <= 0x7f {
            3nat
        } else if value <= 0x7fff {
            4
        } else if value <= 0x7f_ffff {
            5
        } else {
            6
        },
        tokens_size(None) == 0,
        tokens_size(Some(bytes)) == tagged_size(
            tagged_size(tagged_size(tagged_size(tagged_size(bytes.len())))),
        ),
        field_size(Some(bytes)) == tagged_size(tagged_size(bytes.len())),
        TsMessageModel::bare(message.version).encoded_size() == 7,
        message.client_nonce is None && message.error_code is None ==> message.encoded_size()
            == tagged_size(
            5 + tokens_size(message.nego_tokens) + field_size(message.auth_info) + field_size(
                message.pub_key_auth,
            ),
        ),
        (TsMessageModel {
            client_nonce: Some(bytes),
            ..TsMessageModel::bare(message.version)
        }).encoded_size() == if message.version >= 5 { 43nat } else { 7 },
        (TsMessageModel {
            error_code: Some(value),
            ..TsMessageModel::bare(message.version)
        }).encoded_size() == if message.version >= 3 && message.version != 5 {
            9 + integer_size(value)
        } else {
            7
        },
        message.keeps_its_lengths() <==> message.version <= 127 && (message.version == 5
            ==> message.error_code is None),
{
}

} // verus!
