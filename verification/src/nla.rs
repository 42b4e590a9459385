//! The negotiation before an RDP connection: which protection a client asks for,
//! and how its request is answered and replayed.

use vstd::prelude::*;

use crate::wire::{get_u16, get_u32, push_u32};

verus! {

/// TLS.
pub const PROTOCOL_SSL: u32 = 0x0000_0001;

/// Network-level authentication.
pub const PROTOCOL_HYBRID: u32 = 0x0000_0002;

/// Network-level authentication with an early result.
pub const PROTOCOL_HYBRID_EX: u32 = 0x0000_0008;

/// The size of the answer that confirms a connection.
pub const X224_CONFIRM_SIZE: usize = 19;

/// What is wrong with a request.
#[derive(Clone, Copy, Debug, PartialEq, Eq, Structural)]
pub enum NegotiationError {
    Truncated,
    InvalidTpkt,
    WrongTpktLength,
    NotAConnectionRequest,
    UnterminatedCookie,
    MissingPayload,
    NotANegotiationRequest,
    InvalidRequestLength,
    InvalidProtocolOffset,
}

/// A client's request: the protocols that it offers, and where they stand in the
/// packet.
#[derive(Clone, Copy, Debug, PartialEq, Eq, Structural)]
pub struct NegotiationRequest {
    pub requested_protocols: u32,
    pub protocol_offset: usize,
}

/// The protocol for network-level authentication that an offer contains.
pub open spec fn preferred_protocol(requested: u32) -> Option<u32> {
    if requested & PROTOCOL_HYBRID_EX != 0 {
        Some(PROTOCOL_HYBRID_EX)
    } else if requested & PROTOCOL_HYBRID != 0 {
        Some(PROTOCOL_HYBRID)
    } else {
        None
    }
}

impl NegotiationRequest {
    /// The protocol for network-level authentication to use, if the client offers
    /// one.
    pub fn preferred_nla_protocol(self) -> (protocol: Option<u32>)
        ensures
            protocol == preferred_protocol(self.requested_protocols),
    {
        if self.requested_protocols & PROTOCOL_HYBRID_EX != 0 {
            Some(PROTOCOL_HYBRID_EX)
        } else if self.requested_protocols & PROTOCOL_HYBRID != 0 {
            Some(PROTOCOL_HYBRID)
        } else {
            None
        }
    }
}

/// Whether a cookie begins at the byte 11 of a packet.
pub open spec fn has_cookie(packet: Seq<u8>) -> bool {
    &&& packet.len() >= 18
    &&& packet[11] == 0x43
    &&& packet[12] == 0x6f
    &&& packet[13] == 0x6f
    &&& packet[14] == 0x6b
    &&& packet[15] == 0x69
    &&& packet[16] == 0x65
    &&& packet[17] == 0x3a
}

/// The place of the first line end from `from` on.
pub open spec fn line_end(packet: Seq<u8>, from: int) -> Option<int>
    decreases packet.len() - from,
{
    if from < 0 || from + 2 > packet.len() {
        None
    } else if packet[from] == 0x0d && packet[from + 1] == 0x0a {
        Some(from)
    } else {
        line_end(packet, from + 1)
    }
}

/// What a packet asks for: the protocols stand four bytes behind the beginning of
/// the negotiation request, which follows the fixed header and a cookie.
pub open spec fn parsed_request(packet: Seq<u8>) -> Result<NegotiationRequest, NegotiationError> {
    if packet.len() < 19 {
        Err(NegotiationError::Truncated)
    } else if packet[0] != 3 || packet[1] != 0 {
        Err(NegotiationError::InvalidTpkt)
    } else if packet[2] * 256 + packet[3] != packet.len() {
        Err(NegotiationError::WrongTpktLength)
    } else if packet[5] != 0xe0 {
        Err(NegotiationError::NotAConnectionRequest)
    } else if has_cookie(packet) && line_end(packet, 11) is None {
        Err(NegotiationError::UnterminatedCookie)
    } else {
        let offset = if has_cookie(packet) {
            line_end(packet, 11)->0 + 2
        } else {
            11
        };
        if offset + 8 > packet.len() {
            Err(NegotiationError::MissingPayload)
        } else if packet[offset] != 0x01 {
            Err(NegotiationError::NotANegotiationRequest)
        } else if crate::wire::u16_at(packet, offset + 2) != 8 {
            Err(NegotiationError::InvalidRequestLength)
        } else {
            Ok(
                NegotiationRequest {
                    requested_protocols: crate::wire::u32_at(packet, offset + 4),
                    protocol_offset: (offset + 4) as usize,
                },
            )
        }
    }
}

fn find_line_end(packet: &Vec<u8>, from: usize) -> (found: Option<usize>)
    requires
        from <= packet@.len(),
    ensures
        found is None <==> line_end(packet@, from as int) is None,
        found matches Some(at) ==> line_end(packet@, from as int) == Some(at as int) && from <= at
            && at + 2 <= packet@.len(),
{
    let mut at: usize = from;
    while packet.len() - at >= 2
        invariant
            from <= at <= packet@.len(),
            line_end(packet@, from as int) == line_end(packet@, at as int),
        decreases packet@.len() - at,
    {
        if packet[at] == 0x0d && packet[at + 1] == 0x0a {
            return Some(at);
        }
        at = at + 1;
    }
    None
}

/// Reads what a client asks for.
pub fn parse_negotiation_request(packet: &Vec<u8>) -> (result: Result<
    NegotiationRequest,
    NegotiationError,
>)
    ensures
        result == parsed_request(packet@),
        result matches Ok(request) ==> request.protocol_offset + 4 <= packet@.len(),
{
    if packet.len() < 19 {
        return Err(NegotiationError::Truncated);
    }
    if packet[0] != 3 || packet[1] != 0 {
        return Err(NegotiationError::InvalidTpkt);
    }
    let declared: usize = packet[2] as usize * 256 + packet[3] as usize;
    if declared != packet.len() {
        return Err(NegotiationError::WrongTpktLength);
    }
    if packet[5] != 0xe0 {
        return Err(NegotiationError::NotAConnectionRequest);
    }
    let cookie = packet[11] == 0x43 && packet[12] == 0x6f && packet[13] == 0x6f && packet[14]
        == 0x6b && packet[15] == 0x69 && packet[16] == 0x65 && packet[17] == 0x3a;
    let mut offset: usize = 11;
    if cookie {
        match find_line_end(packet, 11) {
            Some(end) => {
                offset = end + 2;
            },
            None => {
                return Err(NegotiationError::UnterminatedCookie);
            },
        }
    }
    if packet.len() - offset < 8 {
        return Err(NegotiationError::MissingPayload);
    }
    if packet[offset] != 0x01 {
        return Err(NegotiationError::NotANegotiationRequest);
    }
    if get_u16(packet, offset + 2) != 8 {
        return Err(NegotiationError::InvalidRequestLength);
    }
    Ok(
        NegotiationRequest {
            requested_protocols: get_u32(packet, offset + 4),
            protocol_offset: offset + 4,
        },
    )
}

/// The answer that confirms a connection with a protocol.
pub open spec fn confirm_bytes(protocol: u32) -> Seq<u8> {
    seq![
        0x03u8, 0x00, 0x00, 0x13, 0x0e, 0xd0, 0x00, 0x00, 0x00, 0x00, 0x00, 0x02, 0x00, 0x08, 0x00,
    ] + crate::wire::u32_bytes(protocol)
}

/// Writes the answer that confirms a connection with a protocol.
pub fn connection_confirm(selected_protocol: u32) -> (response: Vec<u8>)
    ensures
        response@ == confirm_bytes(selected_protocol),
        response@.len() == X224_CONFIRM_SIZE,
{
    let mut response: Vec<u8> = vec![
        0x03u8, 0x00, 0x00, 0x13, 0x0e, 0xd0, 0x00, 0x00, 0x00, 0x00, 0x00, 0x02, 0x00, 0x08, 0x00,
    ];
    push_u32(&mut response, selected_protocol);
    response
}

/// A packet with other protocols at the given place.
pub open spec fn with_protocols(packet: Seq<u8>, offset: int, protocols: u32) -> Seq<u8> {
    packet.subrange(0, offset) + crate::wire::u32_bytes(protocols) + packet.subrange(
        offset + 4,
        packet.len() as int,
    )
}

/// The request that is replayed once the connection is encrypted and its user is
/// known: the client's own, offering TLS alone.
pub fn tls_continuation_request(request: Vec<u8>, protocol_offset: usize) -> (result: Result<
    Vec<u8>,
    NegotiationError,
>)
    ensures
        result is Ok <==> protocol_offset + 4 <= request@.len(),
        result matches Err(error) ==> error == NegotiationError::InvalidProtocolOffset,
        result matches Ok(continued) ==> continued@ == with_protocols(
            request@,
            protocol_offset as int,
            PROTOCOL_SSL,
        ),
{
    let mut request = request;
    if request.len() < 4 || protocol_offset > request.len() - 4 {
        return Err(NegotiationError::InvalidProtocolOffset);
    }
    let ghost before = request@;
    request.set(protocol_offset, 1);
    request.set(protocol_offset + 1, 0);
    request.set(protocol_offset + 2, 0);
    request.set(protocol_offset + 3, 0);
    assert(request@ =~= with_protocols(before, protocol_offset as int, PROTOCOL_SSL));
    Ok(request)
}

/// The size of the packet whose first four bytes are given.
pub open spec fn packet_size(header: Seq<u8>) -> Result<usize, NegotiationError> {
    if header[0] != 3 || header[1] != 0 {
        Err(NegotiationError::InvalidTpkt)
    } else if header[2] * 256 + header[3] < 11 {
        Err(NegotiationError::WrongTpktLength)
    } else {
        Ok((header[2] * 256 + header[3]) as usize)
    }
}

/// The size of the packet whose first four bytes are given, which is at least the
/// fixed part of a request.
pub fn tpkt_length(header: &[u8; 4]) -> (result: Result<usize, NegotiationError>)
    ensures
        result == packet_size(header@),
        result == (if header@[0] != 3 || header@[1] != 0 {
            Err::<usize, NegotiationError>(NegotiationError::InvalidTpkt)
        } else if header@[2] * 256 + header@[3] < 11 {
            Err::<usize, NegotiationError>(NegotiationError::WrongTpktLength)
        } else {
            Ok::<usize, NegotiationError>((header@[2] * 256 + header@[3]) as usize)
        }),
{
    if header[0] != 3 || header[1] != 0 {
        return Err(NegotiationError::InvalidTpkt);
    }
    let length: usize = header[2] as usize * 256 + header[3] as usize;
    if length < 11 {
        return Err(NegotiationError::WrongTpktLength);
    }
    Ok(length)
}

/// The four bytes that end network-level authentication with an early result.
pub open spec fn early_result_bytes(accepted: bool) -> Seq<u8> {
    crate::wire::u32_bytes(
        if accepted {
            0
        } else {
            5
        },
    )
}

/// The early result that is sent after network-level authentication, if the
/// protocol has one.
pub fn early_auth_result(protocol: u32, accepted: bool) -> (result: Option<Vec<u8>>)
    ensures
        result is Some <==> protocol == PROTOCOL_HYBRID_EX,
        result matches Some(bytes) ==> bytes@ == early_result_bytes(accepted),
{
    if protocol != PROTOCOL_HYBRID_EX {
        return None;
    }
    let mut bytes: Vec<u8> = Vec::new();
    push_u32(
        &mut bytes,
        if accepted {
            0
        } else {
            5
        },
    );
    assert(bytes@ =~= early_result_bytes(accepted));
    Some(bytes)
}

/// How a connection goes on after its first packet.
pub enum ConnectionPlan {
    /// Without network-level authentication: the packet is replayed as it is.
    Standard(PrefixBuffer),
    /// With it: the answer is sent, TLS and the user are settled, and then the
    /// request is replayed and the second answer swallowed.
    Nla { protocol: u32, confirm: Vec<u8>, replay: PrefixBuffer },
}

/// Whether a connection goes on like this after its first packet.
pub open spec fn goes_on(
    request: Seq<u8>,
    plan: Result<ConnectionPlan, NegotiationError>,
) -> bool {
    match parsed_request(request) {
        Err(expected) => plan matches Err(error) && error == expected,
        Ok(parsed) => match preferred_protocol(parsed.requested_protocols) {
            None => plan matches Ok(ConnectionPlan::Standard(replay)) && replay.pending()
                == request && replay.to_swallow() == 0,
            Some(selected) => plan matches Ok(
                ConnectionPlan::Nla { protocol, confirm, replay },
            ) && protocol == selected && confirm@ == confirm_bytes(selected) && replay.pending()
                == with_protocols(request, parsed.protocol_offset as int, PROTOCOL_SSL)
                && replay.to_swallow() == X224_CONFIRM_SIZE,
        },
    }
}

/// Decides how a connection goes on after its first packet.
pub fn plan_connection(request: Vec<u8>) -> (plan: Result<ConnectionPlan, NegotiationError>)
    ensures
        goes_on(request@, plan),
        match parsed_request(request@) {
            Err(expected) => plan matches Err(error) && error == expected,
            Ok(parsed) => match preferred_protocol(parsed.requested_protocols) {
                None => plan matches Ok(ConnectionPlan::Standard(replay)) && replay.pending()
                    == request@ && replay.to_swallow() == 0,
                Some(selected) => plan matches Ok(
                    ConnectionPlan::Nla { protocol, confirm, replay },
                ) && protocol == selected && confirm@ == confirm_bytes(selected)
                    && replay.pending() == with_protocols(
                    request@,
                    parsed.protocol_offset as int,
                    PROTOCOL_SSL,
                ) && replay.to_swallow() == X224_CONFIRM_SIZE,
            },
        },
{
    let parsed = match parse_negotiation_request(&request) {
        Ok(parsed) => parsed,
        Err(error) => {
            return Err(error);
        },
    };
    match parsed.preferred_nla_protocol() {
        None => Ok(ConnectionPlan::Standard(PrefixBuffer::new(request, 0))),
        Some(protocol) => match tls_continuation_request(request, parsed.protocol_offset) {
            Ok(continuation) => Ok(
                ConnectionPlan::Nla {
                    protocol,
                    confirm: connection_confirm(protocol),
                    replay: PrefixBuffer::new(continuation, X224_CONFIRM_SIZE),
                },
            ),
            Err(error) => Err(error),
        },
    }
}

/// Bytes that are read before those of a stream, and a number of bytes that are
/// swallowed before writing to it.
pub struct PrefixBuffer {
    prefix: Vec<u8>,
    offset: usize,
    discard: usize,
}

impl PrefixBuffer {
    #[verifier::type_invariant]
    spec fn within(self) -> bool {
        self.offset <= self.prefix@.len()
    }

    /// The bytes that are still to be read.
    pub closed spec fn pending(self) -> Seq<u8> {
        self.prefix@.subrange(self.offset as int, self.prefix@.len() as int)
    }

    /// The number of bytes that are still to be swallowed.
    pub closed spec fn to_swallow(self) -> nat {
        self.discard as nat
    }

    /// Replays `prefix` and swallows `discard` bytes.
    pub fn new(prefix: Vec<u8>, discard: usize) -> (buffer: Self)
        ensures
            buffer.pending() == prefix@,
            buffer.to_swallow() == discard,
    {
        let buffer = PrefixBuffer { prefix, offset: 0, discard };
        assert(buffer.pending() =~= prefix@);
        buffer
    }

    /// The bytes to be read next, `room` at most. Nothing means that the stream
    /// itself is to be read.
    pub fn read(&mut self, room: usize) -> (bytes: Vec<u8>)
        ensures
            bytes@.len() == if old(self).pending().len() <= room {
                old(self).pending().len()
            } else {
                room as nat
            },
            old(self).pending() == bytes@ + final(self).pending(),
            final(self).to_swallow() == old(self).to_swallow(),
    {
        proof {
            use_type_invariant(&*self);
        }
        let ghost before = self.pending();
        let mut bytes: Vec<u8> = Vec::new();
        while self.offset < self.prefix.len() && bytes.len() < room
            invariant
                self.offset <= self.prefix@.len(),
                bytes@.len() <= room,
                before == bytes@ + self.pending(),
                self.discard == old(self).discard,
            decreases self.prefix@.len() - self.offset,
        {
            let ghost rest = self.pending();
            bytes.push(self.prefix[self.offset]);
            self.offset = self.offset + 1;
            assert(rest =~= seq![rest[0]] + self.pending());
            assert(before =~= bytes@ + self.pending());
        }
        bytes
    }

    /// The number of bytes of a write that are swallowed. None means that the write
    /// goes to the stream itself.
    pub fn write(&mut self, length: usize) -> (swallowed: usize)
        ensures
            swallowed == if old(self).to_swallow() <= length {
                old(self).to_swallow()
            } else {
                length as nat
            },
            final(self).to_swallow() == old(self).to_swallow() - swallowed,
            final(self).pending() == old(self).pending(),
    {
        proof {
            use_type_invariant(&*self);
        }
        let swallowed: usize = if self.discard <= length {
            self.discard
        } else {
            length
        };
        self.discard = self.discard - swallowed;
        swallowed
    }
}

proof fn lemma_line_end_agrees(packet: Seq<u8>, other: Seq<u8>, from: int, end: int)
    requires
        0 <= from <= end,
        line_end(packet, from) == Some(end),
        end + 2 <= packet.len(),
        packet.len() == other.len(),
        forall|i: int| from <= i < end + 2 ==> packet[i] == other[i],
    ensures
        line_end(other, from) == Some(end),
    decreases end - from,
{
    if packet[from] == 0x0d && packet[from + 1] == 0x0a {
        assert(end == from);
    } else {
        lemma_line_end_bounds(packet, from + 1);
        lemma_line_end_agrees(packet, other, from + 1, end);
    }
}

proof fn lemma_line_end_bounds(packet: Seq<u8>, from: int)
    requires
        0 <= from,
    ensures
        line_end(packet, from) matches Some(end) ==> from <= end && end + 2 <= packet.len(),
    decreases packet.len() - from,
{
    if from + 2 <= packet.len() && !(packet[from] == 0x0d && packet[from + 1] == 0x0a) {
        lemma_line_end_bounds(packet, from + 1);
    }
}

/// The replayed request is the client's own but for its offer: it is read as an
/// offer of TLS alone, in the same place, and asks for no further authentication.
pub proof fn law_continuation_offers_tls_alone(packet: Seq<u8>, request: NegotiationRequest)
    requires
        parsed_request(packet) == Ok::<NegotiationRequest, NegotiationError>(request),
        packet.len() <= usize::MAX,
    ensures
        ({
            let continued = with_protocols(packet, request.protocol_offset as int, PROTOCOL_SSL);
            &&& parsed_request(continued) == Ok::<NegotiationRequest, NegotiationError>(
                NegotiationRequest { requested_protocols: PROTOCOL_SSL, ..request },
            )
            &&& preferred_protocol(PROTOCOL_SSL) is None
        }),
{
    lemma_line_end_bounds(packet, 11);
    let offset = request.protocol_offset as int;
    let continued = with_protocols(packet, offset, PROTOCOL_SSL);
    assert(continued.len() == packet.len());
    assert forall|i: int| 0 <= i < packet.len() && !(offset <= i < offset + 4) implies continued[i]
        == packet[i] by {}
    assert(continued.subrange(offset, offset + 4) =~= crate::wire::u32_bytes(PROTOCOL_SSL));
    crate::wire::law_u32_is_read_back(continued, offset, PROTOCOL_SSL);
    if has_cookie(packet) {
        lemma_line_end_agrees(packet, continued, 11, line_end(packet, 11)->0);
        assert(has_cookie(continued)) by {
            lemma_cookie_before_line_end(packet);
        }
    } else {
        assert(continued[11] == 0x01);
    }
    assert(1u32 & 8u32 == 0 && 1u32 & 2u32 == 0) by (bit_vector);
}

proof fn lemma_cookie_before_line_end(packet: Seq<u8>)
    requires
        has_cookie(packet),
        line_end(packet, 11) is Some,
    ensures
        line_end(packet, 11)->0 >= 18,
{
    reveal_with_fuel(line_end, 8);
    lemma_line_end_bounds(packet, 18);
}

/// The end of a line is the first carriage return with a line feed behind it.
pub proof fn law_line_ends_are_the_first(packet: Seq<u8>, from: int, i: int)
    requires
        0 <= from,
    ensures
        line_end(packet, from) matches Some(end) ==> {
            &&& from <= end && end + 1 < packet.len()
            &&& packet[end] == 13 && packet[end + 1] == 10
            &&& from <= i < end ==> !(packet[i] == 13 && packet[i + 1] == 10)
        },
        line_end(packet, from) is None && from <= i && i + 1 < packet.len() ==> !(packet[i] == 13
            && packet[i + 1] == 10),
    decreases packet.len() - from,
{
    if from + 2 <= packet.len() && !(packet[from] == 0x0d && packet[from + 1] == 0x0a) {
        law_line_ends_are_the_first(packet, from + 1, i);
    }
}

/// A connection request without a cookie is taken exactly if it has 19 bytes at least, as
/// many as its third and fourth byte say, is of version 3 and a connection request, and its
/// negotiation request of eight bytes comes right behind its head. It offers the protocols
/// that the last four of those name.
pub proof fn law_plain_requests_are_taken_exactly_if(packet: Seq<u8>)
    requires
        packet.len() < 19 || packet[11] != 'C' as u8,
        packet.len() <= usize::MAX,
    ensures
        parsed_request(packet) is Ok <==> {
            &&& packet.len() >= 19
            &&& packet[0] == 3 && packet[1] == 0
            &&& 256 * packet[2] + packet[3] == packet.len()
            &&& packet[5] == 0xe0
            &&& packet[11] == 1
            &&& packet[13] == 8 && packet[14] == 0
        },
        parsed_request(packet) matches Ok(request) ==> {
            &&& request.protocol_offset == 15
            &&& request.requested_protocols == packet[15] + 256 * packet[16] + 65536 * packet[17]
                + 16777216 * packet[18]
        },
{
}

/// Behind a cookie the negotiation request comes with the next line.
pub proof fn law_cookies_are_passed_over(packet: Seq<u8>, end: int)
    requires
        19 <= packet.len() <= usize::MAX,
        packet[0] == 3 && packet[1] == 0,
        256 * packet[2] + packet[3] == packet.len(),
        packet[5] == 0xe0,
        packet[11] == 'C' as u8 && packet[12] == 'o' as u8 && packet[13] == 'o' as u8 && packet[14]
            == 'k' as u8 && packet[15] == 'i' as u8 && packet[16] == 'e' as u8 && packet[17]
            == ':' as u8,
        18 <= end && end + 10 <= packet.len(),
        packet[end] == 13 && packet[end + 1] == 10,
        forall|i: int| 18 <= i < end ==> !(packet[i] == 13 && #[trigger] packet[i + 1] == 10),
        packet[end + 2] == 1 && packet[end + 4] == 8 && packet[end + 5] == 0,
    ensures
        parsed_request(packet) matches Ok(request) && request.protocol_offset == end + 6
            && request.requested_protocols == packet[end + 6] + 256 * packet[end + 7] + 65536
            * packet[end + 8] + 16777216 * packet[end + 9],
{
    lemma_first_line_end(packet, 18, end);
    reveal_with_fuel(line_end, 8);
    assert(line_end(packet, 11) == Some(end));
}

proof fn lemma_first_line_end(packet: Seq<u8>, from: int, end: int)
    requires
        0 <= from <= end,
        end + 2 <= packet.len(),
        packet[end] == 13 && packet[end + 1] == 10,
        forall|i: int| from <= i < end ==> !(packet[i] == 13 && #[trigger] packet[i + 1] == 10),
    ensures
        line_end(packet, from) == Some(end),
    decreases end - from,
{
    if from < end {
        assert(!(packet[from] == 13 && packet[from + 1] == 10));
        lemma_first_line_end(packet, from + 1, end);
    }
}

/// What is wrong with a request is told by what is checked first.
pub proof fn law_refused_requests_say_why(packet: Seq<u8>)
    ensures
        ({
            let result = parsed_request(packet);
            let framed = packet.len() >= 19 && packet[0] == 3 && packet[1] == 0;
            let whole = framed && 256 * packet[2] + packet[3] == packet.len();
            &&& packet.len() < 19 <==> result == Err::<NegotiationRequest, NegotiationError>(
                NegotiationError::Truncated,
            )
            &&& packet.len() >= 19 && !framed <==> result == Err::<
                NegotiationRequest,
                NegotiationError,
            >(NegotiationError::InvalidTpkt)
            &&& framed && !whole <==> result == Err::<NegotiationRequest, NegotiationError>(
                NegotiationError::WrongTpktLength,
            )
            &&& whole && packet[5] != 0xe0 <==> result == Err::<
                NegotiationRequest,
                NegotiationError,
            >(NegotiationError::NotAConnectionRequest)
        }),
{
}

/// Of what a client offers the extended hybrid protocol is taken, else the hybrid one, and
/// nothing that it did not offer.
pub proof fn law_best_offer_is_taken(requested: u32)
    ensures
        preferred_protocol(requested) matches Some(protocol) ==> requested & protocol != 0 && (
        protocol == 8 || protocol == 2),
        requested & 8 != 0 ==> preferred_protocol(requested) == Some(8u32),
        preferred_protocol(requested) is None <==> requested & 8 == 0 && requested & 2 == 0,
{
}

/// The answer to a connection request is a confirmation of 19 bytes that tells its own
/// length and the protocol that was taken.
pub proof fn law_confirmation_names_the_protocol(protocol: u32)
    ensures
        ({
            let answer = confirm_bytes(protocol);
            &&& answer.len() == 19
            &&& answer[0] == 3 && answer[1] == 0 && 256 * answer[2] + answer[3] == answer.len()
            &&& answer[4] == answer.len() - 5 && answer[5] == 0xd0
            &&& answer[6] == 0 && answer[7] == 0 && answer[8] == 0 && answer[9] == 0 && answer[10]
                == 0
            &&& answer[11] == 2 && answer[12] == 0 && answer[13] == 8 && answer[14] == 0
            &&& answer[15] + 256 * answer[16] + 65536 * answer[17] + 16777216 * answer[18]
                == protocol
        }),
{
}

/// A request with other protocols differs from the first in those four bytes alone.
pub proof fn law_only_the_offer_is_replaced(packet: Seq<u8>, offset: int, protocols: u32, i: int)
    requires
        0 <= offset,
        offset + 4 <= packet.len(),
    ensures
        ({
            let next = with_protocols(packet, offset, protocols);
            &&& next.len() == packet.len()
            &&& 0 <= i < packet.len() && !(offset <= i < offset + 4) ==> next[i] == packet[i]
            &&& next[offset] + 256 * next[offset + 1] + 65536 * next[offset + 2] + 16777216
                * next[offset + 3] == protocols
        }),
{
}

/// The early result is four bytes: zero for a user who may enter, five for another.
pub proof fn law_early_result_tells_the_decision(accepted: bool)
    ensures
        ({
            let bytes = early_result_bytes(accepted);
            &&& bytes.len() == 4
            &&& bytes[0] == 0 <==> accepted
            &&& bytes[0] == 5 <==> !accepted
            &&& bytes[1] == 0 && bytes[2] == 0 && bytes[3] == 0
        }),
{
}

/// A packet tells its size by its third and fourth byte, the high one first, and is of version 3
/// and no smaller than the head of a request.
pub proof fn law_packets_tell_their_size(header: Seq<u8>)
    requires
        header.len() == 4,
    ensures
        packet_size(header) is Ok <==> header[0] == 3 && header[1] == 0 && 256 * header[2]
            + header[3] >= 11,
        packet_size(header) matches Ok(size) ==> size == 256 * header[2] + header[3],
        header[0] != 3 || header[1] != 0 <==> packet_size(header) == Err::<
            usize,
            NegotiationError,
        >(NegotiationError::InvalidTpkt),
{
}

/// A client that offers no network-level authentication is replayed as it came. One that does
/// is told the best protocol that it offered; its request is replayed with the offer of TLS
/// alone, and the 19 bytes of the second answer are swallowed. A request that cannot be read
/// is refused for its reason.
pub proof fn law_offers_decide_how_to_go_on(
    request: Seq<u8>,
    parsed: NegotiationRequest,
    plan: Result<ConnectionPlan, NegotiationError>,
)
    requires
        goes_on(request, plan),
    ensures
        plan is Ok <==> parsed_request(request) is Ok,
        parsed_request(request) == Ok::<NegotiationRequest, NegotiationError>(parsed)
            && parsed.requested_protocols & 8 == 0 && parsed.requested_protocols & 2 == 0 ==> (
        plan matches Ok(ConnectionPlan::Standard(replay)) && replay.pending() == request
            && replay.to_swallow() == 0),
        parsed_request(request) == Ok::<NegotiationRequest, NegotiationError>(parsed)
            && parsed.requested_protocols & 8 != 0 ==> (plan matches Ok(
            ConnectionPlan::Nla { protocol, confirm, replay },
        ) && protocol == 8 && confirm@ == confirm_bytes(8) && replay.to_swallow() == 19
            && replay.pending() == with_protocols(request, parsed.protocol_offset as int, 1)),
        parsed_request(request) == Ok::<NegotiationRequest, NegotiationError>(parsed)
            && parsed.requested_protocols & 8 == 0 && parsed.requested_protocols & 2 != 0 ==> (
        plan matches Ok(ConnectionPlan::Nla { protocol, confirm, replay }) && protocol == 2
            && confirm@ == confirm_bytes(2) && replay.to_swallow() == 19 && replay.pending()
            == with_protocols(request, parsed.protocol_offset as int, 1)),
{
}

} // verus!
