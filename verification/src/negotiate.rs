//! The state of a Windows Negotiate exchange on the host's side: what its answers
//! mean, how protected messages are put together and taken apart, and the sequence
//! numbers that keep them in order.

use vstd::prelude::*;

use crate::wide::text_of_wide;

verus! {

/// The exchange is complete.
pub const SEC_E_OK: u32 = 0;

/// Another token of the client is needed.
pub const SEC_I_CONTINUE_NEEDED: u32 = 0x90312;

/// The token must be finished; then the exchange is complete.
pub const SEC_I_COMPLETE_NEEDED: u32 = 0x90313;

/// The token must be finished, and another token of the client is needed.
pub const SEC_I_COMPLETE_AND_CONTINUE: u32 = 0x90314;

/// How many UTF-16 units an account's name may have, the zero at its end included.
pub const MAX_ACCOUNT_UNITS: usize = 32768;

/// What is wrong in an exchange.
#[derive(Debug, Clone, Copy, PartialEq, Eq, Structural)]
pub enum NegotiateError {
    /// A client's token is too large.
    TokenTooLarge,
    /// Windows rejected the client.
    Rejected(u32),
    /// Windows' messages have no room for their protection.
    EmptyTrailer,
    /// Nothing has been accepted yet.
    NoContext,
    /// The exchange is not complete.
    NoSizes,
    /// A message to protect is too large.
    PlaintextTooLarge,
    /// Windows could not protect a message.
    EncryptFailed(u32),
    /// A protected message is too short.
    Truncated,
    /// A protected message is too large.
    CiphertextTooLarge,
    /// Windows could not open a message.
    DecryptFailed(u32),
    /// Windows opened a message and returned nothing.
    NoData,
    /// Windows opened a message and returned what is no message.
    InvalidData,
    /// Windows named no account.
    NoAccount,
    /// The account's name does not end.
    UnterminatedAccount,
    /// The account's name is empty.
    EmptyAccount,
}

/// Whether a token must be finished before it is sent.
pub open spec fn finishes_token(status: u32) -> bool {
    status == SEC_I_COMPLETE_NEEDED || status == SEC_I_COMPLETE_AND_CONTINUE
}

/// Whether a status ends the exchange; nothing where the client is rejected.
pub open spec fn completes(status: u32) -> Option<bool> {
    if status == SEC_E_OK || status == SEC_I_COMPLETE_NEEDED {
        Some(true)
    } else if status == SEC_I_CONTINUE_NEEDED || status == SEC_I_COMPLETE_AND_CONTINUE {
        Some(false)
    } else {
        None
    }
}

/// Whether a token must be finished before it is sent.
pub fn needs_completion(status: u32) -> (needed: bool)
    ensures
        needed == finishes_token(status),
{
    status == SEC_I_COMPLETE_NEEDED || status == SEC_I_COMPLETE_AND_CONTINUE
}

/// The size of a client's token.
pub fn token_length(length: usize) -> (result: Result<u32, NegotiateError>)
    ensures
        if length <= u32::MAX {
            result matches Ok(found) && found == length
        } else {
            result matches Err(error) && error == NegotiateError::TokenTooLarge
        },
{
    if length as u64 > 0xffffffff {
        return Err(NegotiateError::TokenTooLarge);
    }
    Ok(length as u32)
}

/// A message that Windows is asked to protect or to open: the size of its
/// protection, the size of its data, and its sequence number.
#[derive(Debug, Clone, Copy, PartialEq, Eq, Structural)]
pub struct MessagePlan {
    pub trailer: u32,
    pub data: u32,
    pub sequence: u32,
}

/// The data of a message that Windows opened.
pub enum OpenedData {
    Missing,
    Invalid,
    Bytes(Vec<u8>),
}

/// An exchange: whether something was accepted, the size of messages' protection,
/// and how many messages were protected and opened.
pub struct NegotiateModel {
    pub accepted: bool,
    pub trailer: Option<u32>,
    pub sent: u32,
    pub received: u32,
}

/// The state of an exchange.
pub struct NegotiateSession {
    accepted: bool,
    trailer: Option<u32>,
    sent: u32,
    received: u32,
}

impl View for NegotiateSession {
    type V = NegotiateModel;

    closed spec fn view(&self) -> NegotiateModel {
        NegotiateModel {
            accepted: self.accepted,
            trailer: self.trailer,
            sent: self.sent,
            received: self.received,
        }
    }
}

/// The number after a sequence number; the last one is followed by 0.
pub open spec fn next_sequence(sequence: u32) -> u32 {
    if sequence == u32::MAX {
        0
    } else {
        (sequence + 1) as u32
    }
}

impl NegotiateModel {
    /// The state after Windows answered a token.
    pub open spec fn after_token(self, status: u32) -> NegotiateModel {
        NegotiateModel { accepted: self.accepted || completes(status) is Some, ..self }
    }

    /// The state after Windows protected a message, or failed to.
    pub open spec fn after_encrypt(self, status: u32) -> NegotiateModel {
        if status == SEC_E_OK {
            NegotiateModel { sent: next_sequence(self.sent), ..self }
        } else {
            self
        }
    }

    /// The state after Windows opened a message, or failed to.
    pub open spec fn after_decrypt(self, status: u32) -> NegotiateModel {
        if status == SEC_E_OK {
            NegotiateModel { received: next_sequence(self.received), ..self }
        } else {
            self
        }
    }

    /// How a message of a length is protected.
    pub open spec fn encrypt_plan(self, length: int) -> MessagePlan {
        MessagePlan { trailer: self.trailer->0, data: length as u32, sequence: self.sent }
    }

    /// How a protected message of a length is opened.
    pub open spec fn decrypt_plan(self, length: int) -> MessagePlan {
        MessagePlan {
            trailer: self.trailer->0,
            data: (length - self.trailer->0) as u32,
            sequence: self.received,
        }
    }

    /// What stands against protecting a message of this size, if anything.
    pub open spec fn encrypt_error(self, length: int) -> Option<NegotiateError> {
        if !self.accepted {
            Some(NegotiateError::NoContext)
        } else if self.trailer is None {
            Some(NegotiateError::NoSizes)
        } else if length > u32::MAX {
            Some(NegotiateError::PlaintextTooLarge)
        } else {
            None
        }
    }

    /// What stands against opening a message of this size, if anything.
    pub open spec fn decrypt_error(self, length: int) -> Option<NegotiateError> {
        match self.trailer {
            _ if !self.accepted => Some(NegotiateError::NoContext),
            None => Some(NegotiateError::NoSizes),
            Some(trailer) => if length < trailer {
                Some(NegotiateError::Truncated)
            } else if length - trailer > u32::MAX {
                Some(NegotiateError::CiphertextTooLarge)
            } else {
                None
            },
        }
    }
}

/// The first bytes of a buffer, or all of it.
pub open spec fn kept(buffer: Seq<u8>, length: u32) -> Seq<u8> {
    if length < buffer.len() {
        buffer.take(length as int)
    } else {
        buffer
    }
}

/// A protected message: its protection, then its data.
pub open spec fn joined(token: Seq<u8>, data: Seq<u8>) -> Seq<u8> {
    token + data
}

impl NegotiateSession {
    /// An exchange in which nothing was accepted.
    pub fn new() -> (session: Self)
        ensures
            session@ == (NegotiateModel { accepted: false, trailer: None, sent: 0, received: 0 }),
    {
        NegotiateSession { accepted: false, trailer: None, sent: 0, received: 0 }
    }

    /// Takes Windows' answer to a client's token: whether the exchange is complete.
    pub fn accept(&mut self, status: u32) -> (result: Result<bool, NegotiateError>)
        ensures
            final(self)@ == old(self)@.after_token(status),
            match completes(status) {
                Some(complete) => result matches Ok(found) && found == complete && final(self)@ == (
                NegotiateModel { accepted: true, ..old(self)@ }),
                None => result matches Err(error) && error == NegotiateError::Rejected(status)
                    && final(self)@ == old(self)@,
            },
    {
        let complete = if status == SEC_E_OK || status == SEC_I_COMPLETE_NEEDED {
            true
        } else if status == SEC_I_CONTINUE_NEEDED || status == SEC_I_COMPLETE_AND_CONTINUE {
            false
        } else {
            return Err(NegotiateError::Rejected(status));
        };
        self.accepted = true;
        Ok(complete)
    }

    /// Takes the size of messages' protection, which a complete exchange has.
    pub fn set_sizes(&mut self, trailer: u32) -> (result: Result<(), NegotiateError>)
        ensures
            if !old(self)@.accepted {
                result matches Err(error) && error == NegotiateError::NoContext && final(self)@
                    == old(self)@
            } else if trailer == 0 {
                result matches Err(error) && error == NegotiateError::EmptyTrailer && final(self)@
                    == old(self)@
            } else {
                result is Ok && final(self)@ == (NegotiateModel {
                    trailer: Some(trailer),
                    ..old(self)@
                })
            },
    {
        if !self.accepted {
            return Err(NegotiateError::NoContext);
        }
        if trailer == 0 {
            return Err(NegotiateError::EmptyTrailer);
        }
        self.trailer = Some(trailer);
        Ok(())
    }

    /// Plans the protection of a message.
    pub fn begin_encrypt(&self, length: usize) -> (result: Result<MessagePlan, NegotiateError>)
        ensures
            result matches Ok(plan) ==> plan == self@.encrypt_plan(length as int),
            match self@.encrypt_error(length as int) {
                Some(expected) => result matches Err(error) && error == expected,
                None => result matches Ok(plan) && Some(plan.trailer) == self@.trailer && plan.data
                    == length && plan.sequence == self@.sent,
            },
    {
        if !self.accepted {
            return Err(NegotiateError::NoContext);
        }
        let trailer: u32 = match self.trailer {
            Some(trailer) => trailer,
            None => {
                return Err(NegotiateError::NoSizes);
            },
        };
        if length as u64 > 0xffffffff {
            return Err(NegotiateError::PlaintextTooLarge);
        }
        Ok(MessagePlan { trailer, data: length as u32, sequence: self.sent })
    }

    /// Takes what Windows made of a message: the protected message, from as much of
    /// the two buffers as Windows used.
    pub fn finish_encrypt(
        &mut self,
        status: u32,
        token: Vec<u8>,
        data: Vec<u8>,
        token_length: u32,
        data_length: u32,
    ) -> (result: Result<Vec<u8>, NegotiateError>)
        ensures
            final(self)@ == old(self)@.after_encrypt(status),
            if status == SEC_E_OK {
                result matches Ok(message) && message@ == joined(
                    kept(token@, token_length),
                    kept(data@, data_length),
                ) && final(self)@ == (NegotiateModel {
                    sent: next_sequence(old(self)@.sent),
                    ..old(self)@
                })
            } else {
                result matches Err(error) && error == NegotiateError::EncryptFailed(status)
                    && final(self)@ == old(self)@
            },
    {
        if status != SEC_E_OK {
            return Err(NegotiateError::EncryptFailed(status));
        }
        self.sent = if self.sent == u32::MAX {
            0
        } else {
            self.sent + 1
        };
        let mut message = token;
        if (token_length as u64) < message.len() as u64 {
            message.truncate(token_length as usize);
        }
        let mut data = data;
        if (data_length as u64) < data.len() as u64 {
            data.truncate(data_length as usize);
        }
        message.append(&mut data);
        Ok(message)
    }

    /// Plans the opening of a protected message.
    pub fn begin_decrypt(&self, length: usize) -> (result: Result<MessagePlan, NegotiateError>)
        ensures
            result matches Ok(plan) ==> plan == self@.decrypt_plan(length as int),
            match self@.decrypt_error(length as int) {
                Some(expected) => result matches Err(error) && error == expected,
                None => result matches Ok(plan) && Some(plan.trailer) == self@.trailer
                    && plan.trailer + plan.data == length && plan.sequence == self@.received,
            },
    {
        if !self.accepted {
            return Err(NegotiateError::NoContext);
        }
        let trailer: u32 = match self.trailer {
            Some(trailer) => trailer,
            None => {
                return Err(NegotiateError::NoSizes);
            },
        };
        if (length as u64) < trailer as u64 {
            return Err(NegotiateError::Truncated);
        }
        let data: u64 = length as u64 - trailer as u64;
        if data > 0xffffffff {
            return Err(NegotiateError::CiphertextTooLarge);
        }
        Ok(MessagePlan { trailer, data: data as u32, sequence: self.received })
    }

    /// Takes what Windows found in a protected message.
    pub fn finish_decrypt(&mut self, status: u32, opened: OpenedData) -> (result: Result<
        Vec<u8>,
        NegotiateError,
    >)
        ensures
            final(self)@ == old(self)@.after_decrypt(status),
            status != SEC_E_OK ==> final(self)@ == old(self)@ && (result matches Err(error)
                && error == NegotiateError::DecryptFailed(status)),
            status == SEC_E_OK ==> final(self)@ == (NegotiateModel {
                received: next_sequence(old(self)@.received),
                ..old(self)@
            }) && match opened {
                OpenedData::Missing => result matches Err(error) && error == NegotiateError::NoData,
                OpenedData::Invalid => result matches Err(error) && error
                    == NegotiateError::InvalidData,
                OpenedData::Bytes(bytes) => result matches Ok(found) && found@ == bytes@,
            },
    {
        if status != SEC_E_OK {
            return Err(NegotiateError::DecryptFailed(status));
        }
        self.received = if self.received == u32::MAX {
            0
        } else {
            self.received + 1
        };
        match opened {
            OpenedData::Missing => Err(NegotiateError::NoData),
            OpenedData::Invalid => Err(NegotiateError::InvalidData),
            OpenedData::Bytes(bytes) => Ok(bytes),
        }
    }

    /// Checks that something was accepted, before Windows is asked for the account.
    pub fn ensure_context(&self) -> (result: Result<(), NegotiateError>)
        ensures
            if self@.accepted {
                result is Ok
            } else {
                result matches Err(error) && error == NegotiateError::NoContext
            },
    {
        if self.accepted {
            Ok(())
        } else {
            Err(NegotiateError::NoContext)
        }
    }
}

/// Whether a name ends within its limit.
pub open spec fn terminated(units: Seq<u16>) -> bool {
    exists|i: int| 0 <= i < units.len() && i < MAX_ACCOUNT_UNITS && #[trigger] units[i] == 0
}

/// What is wrong with an account's name, if anything.
pub open spec fn account_error(units: Option<Seq<u16>>) -> Option<NegotiateError> {
    match units {
        None => Some(NegotiateError::NoAccount),
        Some(units) => if !terminated(units) {
            Some(NegotiateError::UnterminatedAccount)
        } else if crate::text::trimmed(
            crate::wide::from_utf16(crate::wide::before_zero(units)),
        ).len() == 0 {
            Some(NegotiateError::EmptyAccount)
        } else {
            None
        },
    }
}

/// Whether a name ends within its limit.
fn is_terminated(units: &Vec<u16>) -> (found: bool)
    ensures
        found == terminated(units@),
{
    let mut k: usize = 0;
    while k < units.len() && k < MAX_ACCOUNT_UNITS
        invariant
            k <= units.len(),
            k <= MAX_ACCOUNT_UNITS,
            forall|i: int| 0 <= i < k ==> units@[i] != 0,
        decreases units.len() - k,
    {
        if units[k] == 0 {
            assert(units@[k as int] == 0);
            return true;
        }
        k += 1;
    }
    false
}

/// The account that Windows authenticated, from the units of its name; nothing where
/// Windows named none.
pub fn account_name(units: &Option<Vec<u16>>) -> (result: Result<String, NegotiateError>)
    ensures
        match account_error(
            match *units {
                Some(list) => Some(list@),
                None => None,
            },
        ) {
            Some(expected) => result matches Err(error) && error == expected,
            None => result matches Ok(name) && name@ == crate::wide::from_utf16(
                crate::wide::before_zero(units->Some_0@),
            ),
        },
{
    match units {
        None => Err(NegotiateError::NoAccount),
        Some(list) => {
            if !is_terminated(list) {
                return Err(NegotiateError::UnterminatedAccount);
            }
            let name = text_of_wide(list);
            if name.as_str().trim().is_empty() {
                return Err(NegotiateError::EmptyAccount);
            }
            Ok(name)
        },
    }
}

/// A protected message comes apart where it was put together: with protection of the
/// agreed size, the rest is the data.
pub proof fn law_protected_messages_come_apart(
    session: NegotiateModel,
    token: Seq<u8>,
    data: Seq<u8>,
)
    requires
        session.accepted,
        session.trailer matches Some(trailer) && token.len() == trailer,
        data.len() <= u32::MAX,
    ensures
        session.decrypt_error(joined(token, data).len() as int) is None,
        joined(token, data).take(token.len() as int) == token,
        joined(token, data).skip(token.len() as int) == data,
{
    assert(joined(token, data).take(token.len() as int) =~= token);
    assert(joined(token, data).skip(token.len() as int) =~= data);
}

/// Before an exchange is complete no message is protected or opened.
pub proof fn law_nothing_is_protected_early(session: NegotiateModel, length: int)
    requires
        !session.accepted || session.trailer is None,
    ensures
        session.encrypt_error(length) is Some,
        session.decrypt_error(length) is Some,
{
}

/// An exchange goes on while Windows says so, ends where it is satisfied, and fails at every
/// other status; it finishes a token exactly where Windows asks for that.
pub proof fn law_statuses_drive_the_exchange(status: u32)
    ensures
        completes(status) == Some(true) <==> status == 0 || status == 0x90313,
        completes(status) == Some(false) <==> status == 0x90312 || status == 0x90314,
        completes(status) is None <==> status != 0 && !(0x90312 <= status <= 0x90314),
        finishes_token(status) <==> status == 0x90313 || status == 0x90314,
{
}

/// The number of a message follows that of the one before, round the 32 bits.
pub proof fn law_messages_are_numbered(sequence: u32)
    ensures
        next_sequence(sequence) as int == (sequence + 1) % 0x1_0000_0000,
{
}

/// A message is protected exactly if the exchange is complete and the message is no longer
/// than 32 bits can tell; it is opened exactly if moreover its protection is all there.
pub proof fn law_whole_messages_are_protected(session: NegotiateModel, length: int)
    requires
        length >= 0,
    ensures
        session.encrypt_error(length) is None <==> session.accepted && session.trailer is Some
            && length <= 0xffff_ffff,
        session.decrypt_error(length) is None <==> {
            &&& session.accepted
            &&& session.trailer matches Some(trailer) && trailer <= length <= trailer + 0xffff_ffff
        },
        session.accepted && (session.trailer matches Some(trailer) && length < trailer)
            <==> session.decrypt_error(length) == Some(NegotiateError::Truncated),
{
}

/// As much of a buffer is kept as Windows says, or all of it.
pub proof fn law_buffers_are_cut_to_their_length(buffer: Seq<u8>, length: u32, i: int)
    ensures
        kept(buffer, length).len() <= length || kept(buffer, length).len() == buffer.len(),
        length <= buffer.len() ==> kept(buffer, length).len() == length,
        length > buffer.len() ==> kept(buffer, length) == buffer,
        0 <= i < kept(buffer, length).len() ==> kept(buffer, length)[i] == buffer[i],
{
}

/// An account is taken exactly if Windows named one, the name ends within 32768 units, and it
/// is not blank.
pub proof fn law_only_named_accounts_are_taken(units: Seq<u16>, end: int)
    requires
        0 <= end < units.len(),
        units[end] == 0,
        forall|i: int| 0 <= i < end ==> units[i] != 0,
    ensures
        ({
            let name = crate::wide::from_utf16(units.take(end));
            &&& account_error(Some(units)) is None <==> end < 32768 && crate::text::trimmed(
                name,
            ).len() > 0
            &&& account_error(Some(units)) == Some(NegotiateError::UnterminatedAccount) <==> end
                >= 32768
            &&& account_error(None) == Some(NegotiateError::NoAccount)
        }),
{
    lemma_before_first_zero(units, end);
    if end < 32768 {
        assert(units[end] == 0);
        assert(terminated(units));
    } else {
        assert(!terminated(units));
    }
}

proof fn lemma_before_first_zero(units: Seq<u16>, end: int)
    requires
        0 <= end < units.len(),
        units[end] == 0,
        forall|i: int| 0 <= i < end ==> units[i] != 0,
    ensures
        crate::wide::before_zero(units) == units.take(end),
    decreases end,
{
    if end == 0 {
        assert(units.take(0) =~= Seq::<u16>::empty());
    } else {
        let rest = units.skip(1);
        assert forall|i: int| 0 <= i < end - 1 implies rest[i] != 0 by {
            assert(rest[i] == units[i + 1]);
        }
        lemma_before_first_zero(rest, end - 1);
        assert(seq![units[0]] + rest.take(end - 1) =~= units.take(end));
    }
}

/// Messages that are sent and those that are received are counted apart: the first of either has
/// the number of the state, the next one that of the next, and one that Windows could not
/// handle counts for nothing.
pub proof fn law_sent_and_received_are_counted_apart(
    session: NegotiateModel,
    status: u32,
    length: int,
)
    requires
        session.trailer matches Some(trailer) && trailer <= length <= 0xffff_ffff,
    ensures
        ({
            let sent = session.after_encrypt(0);
            let received = session.after_decrypt(0);
            &&& session.encrypt_plan(length).sequence == session.sent
            &&& session.decrypt_plan(length).sequence == session.received
            &&& sent.encrypt_plan(length).sequence as int == (session.sent + 1) % 0x1_0000_0000
            &&& sent.decrypt_plan(length).sequence == session.received
            &&& received.decrypt_plan(length).sequence as int == (session.received + 1)
                % 0x1_0000_0000
            &&& received.encrypt_plan(length).sequence == session.sent
            &&& status != 0 ==> session.after_encrypt(status) == session && session.after_decrypt(
                status,
            ) == session
            &&& session.encrypt_plan(length).data == length
            &&& session.decrypt_plan(length).data + session.decrypt_plan(length).trailer == length
            &&& Some(session.encrypt_plan(length).trailer) == session.trailer
            &&& sent.accepted == session.accepted && sent.trailer == session.trailer
            &&& received.accepted == session.accepted && received.trailer == session.trailer
        }),
{
}

/// Once Windows has taken a token there is a context, and a token that it rejects takes none
/// away; nothing else changes.
pub proof fn law_accepted_tokens_open_a_context(session: NegotiateModel, status: u32)
    ensures
        ({
            let next = session.after_token(status);
            &&& next.accepted <==> session.accepted || status == 0 || 0x90312 <= status <= 0x90314
            &&& next.trailer == session.trailer && next.sent == session.sent && next.received
                == session.received
        }),
{
}

} // verus!
