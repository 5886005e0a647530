//! ICMP messages as they are received over IPv4.

use vstd::prelude::*;

use crate::echo_reply::{read_length_delimited, PayloadLengthDelimitedEchoReply};
use crate::types::{Identifier, Payload, SequenceNumber};
use crate::wire::{
    decode, echo_reply_header_v4, header_v4, payload_v4, Decoded, Message, COMMON_HEADER_SIZE,
    ECHO_REPLY_V4,
};
use crate::ICMP_HEADER_SIZE;

verus! {

/// The type field of an ICMP message, as a number.
#[derive(Debug, Clone, Copy, PartialEq, Eq, Hash, Structural)]
pub struct IcmpType(pub u8);

/// The code field of an ICMP message, as a number.
#[derive(Debug, Clone, Copy, PartialEq, Eq, Hash, Structural)]
pub struct IcmpCode(pub u8);

/// A message received over IPv4.
#[derive(Debug, Clone)]
pub enum Icmpv4 {
    EchoReply(PayloadLengthDelimitedEchoReply),
    Other(IcmpType, IcmpCode, Payload),
}

impl View for Icmpv4 {
    type V = Message;

    open spec fn view(&self) -> Message {
        match self {
            Icmpv4::EchoReply(reply) => reply@,
            Icmpv4::Other(kind, code, payload) => Message::Other {
                kind: kind.0,
                code: code.0,
                payload: payload@,
            },
        }
    }
}

/// Why received bytes are no message. Bytes are refused where `pnet_packet`
/// takes them for no packet, which it decides by their number alone; as
/// parsing waits for a whole header first, neither error comes up as long as
/// that is so.
#[derive(Debug, Clone, Copy, PartialEq, Eq, Structural)]
pub enum ParseError {
    /// The bytes are too few for type, code and checksum.
    NotIcmpPacket,
    /// The bytes are too few for the header of an Echo Reply.
    NotEchoReplyPacket,
}

impl ParseError {
    /// The name of the error.
    pub fn to_string(&self) -> (r: String)
        ensures
            r@ == match self {
                ParseError::NotIcmpPacket => "NotIcmpPacket"@,
                ParseError::NotEchoReplyPacket => "NotEchoReplyPacket"@,
            },
    {
        match self {
            ParseError::NotIcmpPacket => "NotIcmpPacket".to_owned(),
            ParseError::NotEchoReplyPacket => "NotEchoReplyPacket".to_owned(),
        }
    }
}

/// How what is handed to a waiter stands for what the bytes amount to.
pub open spec fn delivered_as(result: Result<Icmpv4, ParseError>, decoded: Decoded) -> bool {
    match decoded {
        Decoded::Complete(message) => result matches Ok(found) && found@ == message,
        Decoded::Incomplete => false,
        Decoded::NotIcmpPacket => result == Err::<Icmpv4, ParseError>(ParseError::NotIcmpPacket),
        Decoded::NotEchoReplyPacket => result == Err::<Icmpv4, ParseError>(
            ParseError::NotEchoReplyPacket,
        ),
    }
}

/// How the result of parsing stands for what the bytes amount to.
pub open spec fn parsed_as(r: Result<Option<Icmpv4>, ParseError>, decoded: Decoded) -> bool {
    match r {
        Ok(None) => decoded is Incomplete,
        Ok(Some(found)) => delivered_as(Ok(found), decoded),
        Err(e) => delivered_as(Err(e), decoded),
    }
}

impl Icmpv4 {
    /// Reads one message from the bytes received so far. `Ok(None)` says
    /// that they are the beginning of a message and more are needed.
    pub fn parse_from_packet_bytes(bytes: &[u8]) -> (r: Result<Option<Self>, ParseError>)
        ensures
            parsed_as(r, decode(bytes@, ECHO_REPLY_V4)),
    {
        if bytes.len() < ICMP_HEADER_SIZE {
            return Ok(None);
        }
        let (kind, code) = match header_v4(bytes) {
            Some(found) => found,
            None => {
                return Err(ParseError::NotIcmpPacket);
            },
        };
        if kind == ECHO_REPLY_V4 {
            let header = vstd::slice::slice_to_vec(
                vstd::slice::slice_subrange(bytes, 0, ICMP_HEADER_SIZE),
            );
            let (identifier, sequence_number) = match echo_reply_header_v4(header) {
                Some(found) => found,
                None => {
                    return Err(ParseError::NotEchoReplyPacket);
                },
            };
            match read_length_delimited(bytes) {
                None => Ok(None),
                Some((len, payload)) => Ok(
                    Some(
                        Icmpv4::EchoReply(
                            PayloadLengthDelimitedEchoReply::new(
                                Identifier(identifier),
                                SequenceNumber(sequence_number),
                                len,
                                payload,
                            ),
                        ),
                    ),
                ),
            }
        } else {
            // Type, code and checksum are behind; identifier and sequence
            // number, or what stands in their place, go the same way.
            let behind_checksum = payload_v4(bytes);
            let payload = vstd::slice::slice_to_vec(
                vstd::slice::slice_subrange(
                    behind_checksum.as_slice(),
                    ICMP_HEADER_SIZE - COMMON_HEADER_SIZE,
                    behind_checksum.len(),
                ),
            );
            assert(payload@ =~= bytes@.skip(8));
            Ok(Some(Icmpv4::Other(IcmpType(kind), IcmpCode(code), Payload(payload))))
        }
    }
}

} // verus!
