//! The Echo Reply, as it was read from the wire.

use vstd::prelude::*;

use crate::types::{Identifier, LenWithPayloadLengthDelimited, Payload, SequenceNumber};
use crate::wire::{declared_len, Message};
use crate::ICMP_HEADER_SIZE;

verus! {

/// An Echo Reply whose payload came behind a two-byte length.
#[derive(Debug, Clone)]
#[non_exhaustive]
pub struct PayloadLengthDelimitedEchoReply {
    pub identifier: Identifier,
    pub sequence_number: SequenceNumber,
    pub len: LenWithPayloadLengthDelimited,
    pub payload: Payload,
}

impl View for PayloadLengthDelimitedEchoReply {
    type V = Message;

    open spec fn view(&self) -> Message {
        Message::EchoReply {
            identifier: self.identifier.0,
            sequence_number: self.sequence_number.0,
            len: self.len@,
            payload: self.payload@,
        }
    }
}

impl PayloadLengthDelimitedEchoReply {
    pub fn new(
        identifier: Identifier,
        sequence_number: SequenceNumber,
        len: LenWithPayloadLengthDelimited,
        payload: Payload,
    ) -> (r: Self)
        ensures
            r.identifier == identifier,
            r.sequence_number == sequence_number,
            r.len == len,
            r.payload == payload,
    {
        Self { identifier, sequence_number, len, payload }
    }
}

/// Reads what stands behind the header of an echo message: the two-byte
/// length and that many bytes of payload. Gives nothing while the length or
/// a part of the payload has not arrived; what follows the payload is left
/// aside.
pub fn read_length_delimited(bytes: &[u8]) -> (r: Option<
    (LenWithPayloadLengthDelimited, Payload),
>)
    ensures
        r is None <==> bytes@.len() < 10 || bytes@.len() < 10 + declared_len(bytes@),
        r matches Some(found) ==> found.0@ == declared_len(bytes@) && found.1@
            == bytes@.subrange(10, 10 + declared_len(bytes@)),
{
    if bytes.len() < ICMP_HEADER_SIZE + 2 {
        return None;
    }
    let len = LenWithPayloadLengthDelimited::from_bytes(
        [bytes[ICMP_HEADER_SIZE], bytes[ICMP_HEADER_SIZE + 1]],
    );
    let start: usize = ICMP_HEADER_SIZE + LenWithPayloadLengthDelimited::size();
    let end: usize = start + *len.inner() as usize;
    if bytes.len() < end {
        return None;
    }
    let payload = vstd::slice::slice_to_vec(vstd::slice::slice_subrange(bytes, start, end));
    Some((len, Payload(payload)))
}

} // verus!
