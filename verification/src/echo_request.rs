//! The Echo Request, and how it is put on the wire for each family.

use vstd::prelude::*;

use crate::types::{
    be_bytes, max_payload_len, Identifier, LenWithPayloadLengthDelimited, Payload, SequenceNumber,
};
use crate::wire::{
    checksum_v4, echo_request_bytes, echo_request_v4_bytes, echo_request_v6_bytes,
    fill_echo_request_v4, fill_echo_request_v6, store_checksum_v4, ECHO_REQUEST_V4,
    ECHO_REQUEST_V6,
};
use crate::ICMP_HEADER_SIZE;

verus! {

/// An Echo Request whose payload goes out behind a two-byte length.
#[derive(Debug, Clone)]
#[non_exhaustive]
pub struct PayloadLengthDelimitedEchoRequest {
    pub identifier: Identifier,
    pub sequence_number: SequenceNumber,
    payload_with_len: Payload,
}

/// What a request says, apart from how it is stored.
pub struct EchoRequestView {
    pub identifier: u16,
    pub sequence_number: u16,
    pub payload: Seq<u8>,
}

impl View for PayloadLengthDelimitedEchoRequest {
    type V = EchoRequestView;

    closed spec fn view(&self) -> EchoRequestView {
        EchoRequestView {
            identifier: self.identifier.0,
            sequence_number: self.sequence_number.0,
            payload: self.payload_with_len@.skip(2),
        }
    }
}

impl PayloadLengthDelimitedEchoRequest {
    /// What holds of every request that `new` made: the payload is no longer
    /// than a length prefix can announce, and the prefix in front of it is
    /// its length.
    pub closed spec fn wf(&self) -> bool {
        &&& self.payload_with_len@.len() >= 2
        &&& self.payload_with_len@.len() - 2 <= max_payload_len()
        &&& self.payload_with_len@ == be_bytes((self.payload_with_len@.len() - 2) as u16)
            + self.payload_with_len@.skip(2)
    }

    /// A request for `payload`. Where no identifier is given, it is that of
    /// the process with the given id; where no sequence number is given, it
    /// is 0.
    pub fn new(
        identifier: Option<Identifier>,
        sequence_number: Option<SequenceNumber>,
        payload: &[u8],
        process_id: u32,
    ) -> (r: Self)
        requires
            payload@.len() <= max_payload_len(),
        ensures
            r.wf(),
            r@.payload == payload@,
            identifier matches Some(given) ==> r@.identifier == given.0,
            identifier is None && process_id <= 0xffff ==> r@.identifier == process_id,
            sequence_number matches Some(given) ==> r@.sequence_number == given.0,
            sequence_number is None ==> r@.sequence_number == 0,
    {
        let len = LenWithPayloadLengthDelimited::new(payload.len());
        let prefix = len.to_bytes();
        let mut payload_with_len: Vec<u8> = Vec::new();
        payload_with_len.push(prefix[0]);
        payload_with_len.push(prefix[1]);
        payload_with_len.extend_from_slice(payload);
        assert(payload_with_len@ =~= be_bytes(len@) + payload@);
        assert(payload_with_len@.skip(2) =~= payload@);
        let identifier = match identifier {
            Some(given) => given,
            None => Identifier::gen(process_id),
        };
        let sequence_number = match sequence_number {
            Some(given) => given,
            None => SequenceNumber::default(),
        };
        Self { identifier, sequence_number, payload_with_len: Payload(payload_with_len) }
    }

    /// The payload that the request carries.
    pub fn payload(&self) -> (r: &[u8])
        requires
            self.wf(),
        ensures
            r@ == self@.payload,
    {
        let all = self.payload_with_len.0.as_slice();
        vstd::slice::slice_subrange(all, 2, all.len())
    }

    /// The length that stands in front of the payload.
    pub fn len(&self) -> (r: LenWithPayloadLengthDelimited)
        requires
            self.wf(),
        ensures
            r@ == self@.payload.len(),
    {
        let r = LenWithPayloadLengthDelimited::from_bytes(
            [self.payload_with_len.0[0], self.payload_with_len.0[1]],
        );
        proof {
            crate::types::lemma_len_bytes_round_trip(
                (self.payload_with_len@.len() - 2) as u16,
            );
        }
        r
    }

    /// The request as an ICMP message, checksum included.
    pub fn render_v4_packet_bytes(&self) -> (bytes: Vec<u8>)
        requires
            self.wf(),
        ensures
            bytes@ == echo_request_v4_bytes(
                self@.identifier,
                self@.sequence_number,
                self@.payload,
            ),
    {
        let mut buf = vec![0u8; ICMP_HEADER_SIZE + self.payload_with_len.0.len()];
        fill_echo_request_v4(
            &mut buf,
            ECHO_REQUEST_V4,
            self.identifier.into_inner(),
            self.sequence_number.into_inner(),
            self.payload_with_len.0.as_slice(),
        );
        assert(buf@ =~= echo_request_bytes(
            ECHO_REQUEST_V4,
            0,
            self@.identifier,
            self@.sequence_number,
            self@.payload,
        ));
        let checksum = checksum_v4(buf.as_slice()).unwrap();
        store_checksum_v4(&mut buf, checksum);
        assert(buf@ =~= echo_request_bytes(
            ECHO_REQUEST_V4,
            checksum,
            self@.identifier,
            self@.sequence_number,
            self@.payload,
        ));
        buf
    }

    /// The request as an ICMPv6 message. The checksum field stays zero: the
    /// kernel computes the ICMPv6 checksum when it sends the message.
    pub fn render_v6_packet_bytes(&self) -> (bytes: Vec<u8>)
        requires
            self.wf(),
        ensures
            bytes@ == echo_request_v6_bytes(
                self@.identifier,
                self@.sequence_number,
                self@.payload,
            ),
    {
        let mut buf = vec![0u8; ICMP_HEADER_SIZE + self.payload_with_len.0.len()];
        fill_echo_request_v6(
            &mut buf,
            ECHO_REQUEST_V6,
            self.identifier.into_inner(),
            self.sequence_number.into_inner(),
            self.payload_with_len.0.as_slice(),
        );
        assert(buf@ =~= echo_request_bytes(
            ECHO_REQUEST_V6,
            0,
            self@.identifier,
            self@.sequence_number,
            self@.payload,
        ));
        buf
    }
}

} // verus!
