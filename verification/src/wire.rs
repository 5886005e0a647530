//! The layout of echo messages on the wire, and the calls into `pnet_packet`
//! that read and write it.
//!
//! Each function marked `external_body` here makes the calls that its doc
//! comment names; its contract is taken from the source of `pnet_packet` and
//! is believed, not proved.

use vstd::prelude::*;

use crate::types::{be_bytes, be_value, lemma_len_bytes_round_trip, max_payload_len};

verus! {

/// ICMP type of an Echo Request.
pub const ECHO_REQUEST_V4: u8 = 8;

/// ICMP type of an Echo Reply.
pub const ECHO_REPLY_V4: u8 = 0;

/// ICMPv6 type of an Echo Request.
pub const ECHO_REQUEST_V6: u8 = 128;

/// ICMPv6 type of an Echo Reply.
pub const ECHO_REPLY_V6: u8 = 129;

/// Bytes of the part that every ICMP message starts with: type, code and
/// checksum. What follows them in the header depends on the type.
pub const COMMON_HEADER_SIZE: usize = 4;

/// A slice is accepted as an ICMP message from the length of type, code and
/// checksum on.
pub open spec fn is_icmp_frame(bytes: Seq<u8>) -> bool {
    bytes.len() >= 4
}

/// A slice is accepted as an echo message from the length of the echo
/// header on.
pub open spec fn is_echo_frame(bytes: Seq<u8>) -> bool {
    bytes.len() >= 8
}

/// The `i`-th 16-bit word of `data`, big-endian; where the second byte is
/// missing it counts as zero.
pub open spec fn word_at(data: Seq<u8>, i: int) -> int {
    data[2 * i] * 256 + if 2 * i + 1 < data.len() {
        data[2 * i + 1] as int
    } else {
        0
    }
}

/// Sum of the first `words` 16-bit words of `data`, the word `skip` left out.
pub open spec fn word_sum(data: Seq<u8>, words: int, skip: int) -> int
    decreases words,
{
    if words <= 0 {
        0
    } else {
        word_sum(data, words - 1, skip) + if words - 1 == skip {
            0
        } else {
            word_at(data, words - 1)
        }
    }
}

/// The sum with what is above 16 bits added back in until nothing is.
pub open spec fn fold_carries(sum: int) -> int
    decreases sum,
{
    if sum < 0x1_0000 {
        sum
    } else {
        fold_carries(sum / 0x1_0000 + sum % 0x1_0000)
    }
}

/// The Internet checksum of an ICMP message: the one's complement of the
/// one's-complement sum of its 16-bit words, the checksum field itself
/// (the second word) counted as zero.
pub open spec fn internet_checksum(data: Seq<u8>) -> u16 {
    (0xffff - fold_carries(word_sum(data, (data.len() as int + 1) / 2, 1))) as u16
}

/// What a complete message says.
pub enum Message {
    /// An Echo Reply, with the payload that followed its two-byte length.
    EchoReply { identifier: u16, sequence_number: u16, len: u16, payload: Seq<u8> },
    /// Any other message: its type and code as numbers, and the bytes behind
    /// the eight-byte header as they came.
    Other { kind: u8, code: u8, payload: Seq<u8> },
}

/// What the bytes received so far amount to.
pub enum Decoded {
    /// A whole message.
    Complete(Message),
    /// The beginning of a message: more bytes are needed.
    Incomplete,
    /// No ICMP message at all.
    NotIcmpPacket,
    /// By its type an Echo Reply, yet its header is none.
    NotEchoReplyPacket,
}

/// The payload length that an echo message of at least ten bytes announces.
pub open spec fn declared_len(bytes: Seq<u8>) -> u16 {
    be_value(bytes[8], bytes[9])
}

/// What `bytes` amount to, where `echo_reply` is the type of an Echo Reply
/// in their family.
pub open spec fn decode(bytes: Seq<u8>, echo_reply: u8) -> Decoded {
    if bytes.len() < 8 {
        Decoded::Incomplete
    } else if !is_icmp_frame(bytes) {
        Decoded::NotIcmpPacket
    } else if bytes[0] != echo_reply {
        Decoded::Complete(Message::Other { kind: bytes[0], code: bytes[1], payload: bytes.skip(8) })
    } else if !is_echo_frame(bytes.take(8)) {
        Decoded::NotEchoReplyPacket
    } else if bytes.len() < 10 || bytes.len() < 10 + declared_len(bytes) {
        Decoded::Incomplete
    } else {
        Decoded::Complete(
            Message::EchoReply {
                identifier: be_value(bytes[4], bytes[5]),
                sequence_number: be_value(bytes[6], bytes[7]),
                len: declared_len(bytes),
                payload: bytes.subrange(10, 10 + declared_len(bytes)),
            },
        )
    }
}

/// An Echo Request on the wire: type, code 0, checksum, identifier, sequence
/// number, the payload's length in two bytes, then the payload.
pub open spec fn echo_request_bytes(
    kind: u8,
    checksum: u16,
    identifier: u16,
    sequence_number: u16,
    payload: Seq<u8>,
) -> Seq<u8> {
    seq![kind, 0u8] + be_bytes(checksum) + be_bytes(identifier) + be_bytes(sequence_number)
        + be_bytes(payload.len() as u16) + payload
}

/// The IPv4 Echo Request: its checksum is that of the message with a
/// checksum field of zero.
pub open spec fn echo_request_v4_bytes(
    identifier: u16,
    sequence_number: u16,
    payload: Seq<u8>,
) -> Seq<u8> {
    echo_request_bytes(
        ECHO_REQUEST_V4,
        internet_checksum(
            echo_request_bytes(ECHO_REQUEST_V4, 0, identifier, sequence_number, payload),
        ),
        identifier,
        sequence_number,
        payload,
    )
}

/// The IPv6 Echo Request: its checksum field is zero, for the kernel to
/// fill in when it sends the message.
pub open spec fn echo_request_v6_bytes(
    identifier: u16,
    sequence_number: u16,
    payload: Seq<u8>,
) -> Seq<u8> {
    echo_request_bytes(ECHO_REQUEST_V6, 0, identifier, sequence_number, payload)
}

/// `buf` with an echo header's type, identifier and sequence number and the
/// bytes behind the header written over it; code and checksum stay.
pub open spec fn with_echo_fields(
    buf: Seq<u8>,
    kind: u8,
    identifier: u16,
    sequence_number: u16,
    payload: Seq<u8>,
) -> Seq<u8> {
    seq![kind, buf[1], buf[2], buf[3]] + be_bytes(identifier) + be_bytes(sequence_number)
        + payload + buf.skip(8int + payload.len())
}

/// `buf` with a checksum written into the checksum field.
pub open spec fn with_checksum(buf: Seq<u8>, checksum: u16) -> Seq<u8> {
    buf.take(2) + be_bytes(checksum) + buf.skip(4)
}

/// An Echo Request that comes back with nothing changed but its type, as a
/// peer sends it back that echoes faithfully, reads as an Echo Reply with
/// the identifier, the sequence number, the length and the payload of the
/// request.
pub proof fn lemma_echoed_request_reads_back(
    request: u8,
    reply: u8,
    checksum: u16,
    identifier: u16,
    sequence_number: u16,
    payload: Seq<u8>,
)
    requires
        payload.len() <= max_payload_len(),
    ensures
        decode(
            echo_request_bytes(request, checksum, identifier, sequence_number, payload).update(
                0,
                reply,
            ),
            reply,
        ) == Decoded::Complete(
            Message::EchoReply {
                identifier,
                sequence_number,
                len: payload.len() as u16,
                payload,
            },
        ),
{
    let sent = echo_request_bytes(request, checksum, identifier, sequence_number, payload);
    let back = sent.update(0, reply);
    lemma_len_bytes_round_trip(identifier);
    lemma_len_bytes_round_trip(sequence_number);
    lemma_len_bytes_round_trip(payload.len() as u16);
    assert(back.len() == 10 + payload.len());
    assert(back[4] == be_bytes(identifier)[0] && back[5] == be_bytes(identifier)[1]);
    assert(back[6] == be_bytes(sequence_number)[0] && back[7] == be_bytes(sequence_number)[1]);
    assert(back[8] == be_bytes(payload.len() as u16)[0] && back[9] == be_bytes(
        payload.len() as u16,
    )[1]);
    assert(declared_len(back) == payload.len());
    assert(back.subrange(10, 10 + declared_len(back)) =~= payload);
}

/// Round trip over IPv4: the rendered request, echoed, reads back as a reply
/// with the request's identifier, sequence number, length and payload.
pub proof fn lemma_round_trip_v4(identifier: u16, sequence_number: u16, payload: Seq<u8>)
    requires
        payload.len() <= max_payload_len(),
    ensures
        decode(
            echo_request_v4_bytes(identifier, sequence_number, payload).update(0, ECHO_REPLY_V4),
            ECHO_REPLY_V4,
        ) == Decoded::Complete(
            Message::EchoReply {
                identifier,
                sequence_number,
                len: payload.len() as u16,
                payload,
            },
        ),
{
    let checksum = internet_checksum(
        echo_request_bytes(ECHO_REQUEST_V4, 0, identifier, sequence_number, payload),
    );
    lemma_echoed_request_reads_back(
        ECHO_REQUEST_V4,
        ECHO_REPLY_V4,
        checksum,
        identifier,
        sequence_number,
        payload,
    );
}

/// Round trip over IPv6: the rendered request, echoed, reads back as a reply
/// with the request's identifier, sequence number, length and payload.
pub proof fn lemma_round_trip_v6(identifier: u16, sequence_number: u16, payload: Seq<u8>)
    requires
        payload.len() <= max_payload_len(),
    ensures
        decode(
            echo_request_v6_bytes(identifier, sequence_number, payload).update(0, ECHO_REPLY_V6),
            ECHO_REPLY_V6,
        ) == Decoded::Complete(
            Message::EchoReply {
                identifier,
                sequence_number,
                len: payload.len() as u16,
                payload,
            },
        ),
{
    lemma_echoed_request_reads_back(
        ECHO_REQUEST_V6,
        ECHO_REPLY_V6,
        0,
        identifier,
        sequence_number,
        payload,
    );
}

/// Whether `bytes` hold a whole Echo Reply: the header, the length and as
/// many bytes of payload as the length announces.
pub open spec fn is_whole_echo_reply(bytes: Seq<u8>, echo_reply: u8) -> bool {
    &&& bytes.len() >= 10
    &&& bytes.len() >= 10 + declared_len(bytes)
    &&& bytes[0] == echo_reply
}

/// Every beginning of an Echo Reply that stops short of the announced
/// payload is incomplete, never an error; with the rest behind it, it is
/// the reply.
pub proof fn lemma_partial_reply_is_incomplete(bytes: Seq<u8>, echo_reply: u8, k: int)
    requires
        is_whole_echo_reply(bytes, echo_reply),
        0 <= k < 10 + declared_len(bytes),
    ensures
        decode(bytes.take(k), echo_reply) == Decoded::Incomplete,
        bytes.take(k) + bytes.skip(k) == bytes,
        decode(bytes, echo_reply) == Decoded::Complete(
            Message::EchoReply {
                identifier: be_value(bytes[4], bytes[5]),
                sequence_number: be_value(bytes[6], bytes[7]),
                len: declared_len(bytes),
                payload: bytes.subrange(10, 10 + declared_len(bytes)),
            },
        ),
{
    let part = bytes.take(k);
    if k >= 10 {
        assert(part[8] == bytes[8] && part[9] == bytes[9]);
    }
    if k >= 8 {
        assert(part[0] == bytes[0]);
        assert(part.take(8).len() == 8);
    }
    assert(bytes.take(8).len() == 8);
    assert(bytes.take(k) + bytes.skip(k) =~= bytes);
}

/// Bytes of at least the length of the echo header are never refused:
/// they are a message, or the beginning of one.
pub proof fn lemma_header_length_is_never_refused(bytes: Seq<u8>, echo_reply: u8)
    requires
        bytes.len() >= 8,
    ensures
        decode(bytes, echo_reply) is Complete || decode(bytes, echo_reply) is Incomplete,
{
    assert(bytes.take(8).len() == 8);
}

/// Writes an echo message into `buf` through
/// `pnet_packet::icmp::echo_request::MutableEchoRequestPacket`: its `new`
/// takes the buffer, then `set_icmp_type`, `set_identifier`,
/// `set_sequence_number` and `set_payload` write byte 0, bytes 4 to 5,
/// bytes 6 to 7 (both big-endian) and the bytes from 8 on. The buffer has to
/// hold the header and the payload, else `new` gives nothing or
/// `set_payload` panics.
#[verifier::external_body]
pub(crate) fn fill_echo_request_v4(
    buf: &mut Vec<u8>,
    kind: u8,
    identifier: u16,
    sequence_number: u16,
    payload: &[u8],
)
    requires
        old(buf).len() >= 8 + payload.len(),
    ensures
        final(buf)@ == with_echo_fields(
            old(buf)@,
            kind,
            identifier,
            sequence_number,
            payload@,
        ),
{
    let packet = pnet_packet::icmp::echo_request::MutableEchoRequestPacket::new(&mut buf[..]);
    if let Some(mut packet) = packet {
        packet.set_icmp_type(pnet_packet::icmp::IcmpType(kind));
        packet.set_identifier(identifier);
        packet.set_sequence_number(sequence_number);
        packet.set_payload(payload);
    }
}

/// The checksum that `pnet_packet::icmp::checksum` computes of the message
/// that `pnet_packet::icmp::IcmpPacket::new` makes of `packet`; nothing where
/// `new` refuses the slice as too short. The sum is kept in 32 bits, which
/// hold the words of any slice of up to 65535 bytes.
#[verifier::external_body]
pub(crate) fn checksum_v4(packet: &[u8]) -> (r: Option<u16>)
    requires
        packet@.len() <= 0xffff,
    ensures
        r is Some <==> is_icmp_frame(packet@),
        r matches Some(sum) ==> sum == internet_checksum(packet@),
{
    let packet = pnet_packet::icmp::IcmpPacket::new(packet);
    packet.map(|p| pnet_packet::icmp::checksum(&p))
}

/// Writes the checksum field, bytes 2 to 3, big-endian, through `new` and
/// `set_checksum` of
/// `pnet_packet::icmp::echo_request::MutableEchoRequestPacket`.
#[verifier::external_body]
pub(crate) fn store_checksum_v4(buf: &mut Vec<u8>, checksum: u16)
    requires
        is_echo_frame(old(buf)@),
    ensures
        final(buf)@ == with_checksum(old(buf)@, checksum),
{
    let packet = pnet_packet::icmp::echo_request::MutableEchoRequestPacket::new(&mut buf[..]);
    if let Some(mut packet) = packet {
        packet.set_checksum(checksum);
    }
}

/// Type and code of an ICMP message, bytes 0 and 1, as `get_icmp_type` and
/// `get_icmp_code` of `pnet_packet::icmp::IcmpPacket` read them; nothing
/// where its `new` refuses the slice as shorter than four bytes.
#[verifier::external_body]
pub(crate) fn header_v4(bytes: &[u8]) -> (r: Option<(u8, u8)>)
    ensures
        r is Some <==> is_icmp_frame(bytes@),
        r matches Some(h) ==> h.0 == bytes@[0] && h.1 == bytes@[1],
{
    let packet = pnet_packet::icmp::IcmpPacket::new(bytes);
    packet.map(|p| (p.get_icmp_type().0, p.get_icmp_code().0))
}

/// What `pnet_packet::icmp::IcmpPacket` holds as payload: the bytes behind
/// type, code and checksum, so from byte 4 on.
#[verifier::external_body]
pub(crate) fn payload_v4(bytes: &[u8]) -> (r: Vec<u8>)
    requires
        is_icmp_frame(bytes@),
    ensures
        r@ == bytes@.skip(4),
{
    let packet = pnet_packet::icmp::IcmpPacket::new(bytes);
    packet.map(|p| pnet_packet::Packet::payload(&p).to_vec()).unwrap_or_default()
}

/// Identifier and sequence number of an Echo Reply, bytes 4 to 5 and 6 to 7,
/// big-endian, as `get_identifier` and `get_sequence_number` of
/// `pnet_packet::icmp::echo_reply::EchoReplyPacket` read them; nothing where
/// its `owned` refuses the bytes as shorter than eight.
#[verifier::external_body]
pub(crate) fn echo_reply_header_v4(header: Vec<u8>) -> (r: Option<(u16, u16)>)
    ensures
        r is Some <==> is_echo_frame(header@),
        r matches Some(h) ==> h.0 == be_value(header@[4], header@[5]) && h.1 == be_value(
            header@[6],
            header@[7],
        ),
{
    let packet = pnet_packet::icmp::echo_reply::EchoReplyPacket::owned(header);
    packet.map(|p| (p.get_identifier(), p.get_sequence_number()))
}

/// Writes an echo message into `buf` through
/// `pnet_packet::icmpv6::echo_request::MutableEchoRequestPacket`: its `new`
/// takes the buffer, then `set_icmpv6_type`, `set_identifier`,
/// `set_sequence_number` and `set_payload` write byte 0, bytes 4 to 5,
/// bytes 6 to 7 (both big-endian) and the bytes from 8 on. The buffer has to
/// hold the header and the payload, else `new` gives nothing or
/// `set_payload` panics.
#[verifier::external_body]
pub(crate) fn fill_echo_request_v6(
    buf: &mut Vec<u8>,
    kind: u8,
    identifier: u16,
    sequence_number: u16,
    payload: &[u8],
)
    requires
        old(buf).len() >= 8 + payload.len(),
    ensures
        final(buf)@ == with_echo_fields(
            old(buf)@,
            kind,
            identifier,
            sequence_number,
            payload@,
        ),
{
    let packet = pnet_packet::icmpv6::echo_request::MutableEchoRequestPacket::new(&mut buf[..]);
    if let Some(mut packet) = packet {
        packet.set_icmpv6_type(pnet_packet::icmpv6::Icmpv6Type(kind));
        packet.set_identifier(identifier);
        packet.set_sequence_number(sequence_number);
        packet.set_payload(payload);
    }
}

/// Type and code of an ICMPv6 message, bytes 0 and 1, as `get_icmpv6_type`
/// and `get_icmpv6_code` of `pnet_packet::icmpv6::Icmpv6Packet` read them;
/// nothing where its `new` refuses the slice as shorter than four bytes.
#[verifier::external_body]
pub(crate) fn header_v6(bytes: &[u8]) -> (r: Option<(u8, u8)>)
    ensures
        r is Some <==> is_icmp_frame(bytes@),
        r matches Some(h) ==> h.0 == bytes@[0] && h.1 == bytes@[1],
{
    let packet = pnet_packet::icmpv6::Icmpv6Packet::new(bytes);
    packet.map(|p| (p.get_icmpv6_type().0, p.get_icmpv6_code().0))
}

/// What `pnet_packet::icmpv6::Icmpv6Packet` holds as payload: the bytes
/// behind type, code and checksum, so from byte 4 on.
#[verifier::external_body]
pub(crate) fn payload_v6(bytes: &[u8]) -> (r: Vec<u8>)
    requires
        is_icmp_frame(bytes@),
    ensures
        r@ == bytes@.skip(4),
{
    let packet = pnet_packet::icmpv6::Icmpv6Packet::new(bytes);
    packet.map(|p| pnet_packet::Packet::payload(&p).to_vec()).unwrap_or_default()
}

/// Identifier and sequence number of an ICMPv6 Echo Reply, bytes 4 to 5 and
/// 6 to 7, big-endian, as `get_identifier` and `get_sequence_number` of
/// `pnet_packet::icmpv6::echo_reply::EchoReplyPacket` read them; nothing
/// where its `owned` refuses the bytes as shorter than eight.
#[verifier::external_body]
pub(crate) fn echo_reply_header_v6(header: Vec<u8>) -> (r: Option<(u16, u16)>)
    ensures
        r is Some <==> is_echo_frame(header@),
        r matches Some(h) ==> h.0 == be_value(header@[4], header@[5]) && h.1 == be_value(
            header@[6],
            header@[7],
        ),
{
    let packet = pnet_packet::icmpv6::echo_reply::EchoReplyPacket::owned(header);
    packet.map(|p| (p.get_identifier(), p.get_sequence_number()))
}

} // verus!
