//! The small values that an echo message is made of.

use vstd::prelude::*;
use vstd::std_specs::convert::FromSpecImpl;

use crate::ICMP_HEADER_SIZE;

verus! {

/// The identifier that a process with the given id uses: the id itself where
/// it fits in 16 bits, the fallback where it does not.
pub open spec fn identifier_for(process_id: u32, fallback: u16) -> u16 {
    if process_id <= 0xffff {
        process_id as u16
    } else {
        fallback
    }
}

/// Tag of a probe session: 16 bits that the reply echoes.
#[derive(Debug, Clone, Copy, PartialEq, Eq, Hash, Structural)]
pub struct Identifier(pub u16);

impl Identifier {
    pub fn from_inner(inner: u16) -> (r: Self)
        ensures
            r.0 == inner,
    {
        Identifier(inner)
    }

    pub fn inner(&self) -> (r: &u16)
        ensures
            *r == self.0,
    {
        &self.0
    }

    pub fn into_inner(self) -> (r: u16)
        ensures
            r == self.0,
    {
        self.0
    }

    /// The identifier `n` steps further on, counting modulo 65536.
    pub fn wrapping_add(self, n: u16) -> (r: Self)
        ensures
            r.0 == (self.0 + n) % 0x1_0000,
    {
        let sum: u32 = self.0 as u32 + n as u32;
        Identifier((sum % 0x1_0000) as u16)
    }

    /// The identifier of a process, given its id and the value to fall back
    /// on where the id does not fit.
    pub fn from_process_id(process_id: u32, fallback: u16) -> (r: Self)
        ensures
            r.0 == identifier_for(process_id, fallback),
    {
        if process_id <= 0xffff {
            Identifier(process_id as u16)
        } else {
            Identifier(fallback)
        }
    }

    /// Generates the identifier of the process with the given id. A process
    /// id of at most 65535 is used as it is; for a larger one the identifier
    /// is drawn at random, so nothing is promised of it.
    pub fn gen(process_id: u32) -> (r: Self)
        ensures
            process_id <= 0xffff ==> r.0 == process_id,
    {
        if process_id <= 0xffff {
            Identifier::from_process_id(process_id, 0)
        } else {
            Identifier::from_process_id(process_id, random_u16())
        }
    }
}

impl From<u16> for Identifier {
    fn from(v: u16) -> (r: Self) {
        Identifier(v)
    }
}

impl FromSpecImpl<u16> for Identifier {
    open spec fn obeys_from_spec() -> bool {
        true
    }

    open spec fn from_spec(v: u16) -> Self {
        Identifier(v)
    }
}

/// Draws 16 bits from `rand::random`, the thread-local generator of the
/// `rand` crate. The outcome differs from call to call, so the contract
/// says nothing of it.
#[verifier::external_body]
fn random_u16() -> (r: u16) {
    rand::random::<u16>()
}

/// Ordinal of a probe within its session: 16 bits that the reply echoes.
#[derive(Debug, Clone, Copy, PartialEq, Eq, Hash, Structural)]
pub struct SequenceNumber(pub u16);

impl SequenceNumber {
    pub fn from_inner(inner: u16) -> (r: Self)
        ensures
            r.0 == inner,
    {
        SequenceNumber(inner)
    }

    pub fn inner(&self) -> (r: &u16)
        ensures
            *r == self.0,
    {
        &self.0
    }

    pub fn into_inner(self) -> (r: u16)
        ensures
            r == self.0,
    {
        self.0
    }

    /// The sequence number `n` steps further on, counting modulo 65536.
    pub fn wrapping_add(self, n: u16) -> (r: Self)
        ensures
            r.0 == (self.0 + n) % 0x1_0000,
    {
        let sum: u32 = self.0 as u32 + n as u32;
        SequenceNumber((sum % 0x1_0000) as u16)
    }
}

impl Default for SequenceNumber {
    fn default() -> (r: Self)
        ensures
            r.0 == 0,
    {
        SequenceNumber(0)
    }
}

impl From<u16> for SequenceNumber {
    fn from(v: u16) -> (r: Self) {
        SequenceNumber(v)
    }
}

impl FromSpecImpl<u16> for SequenceNumber {
    open spec fn obeys_from_spec() -> bool {
        true
    }

    open spec fn from_spec(v: u16) -> Self {
        SequenceNumber(v)
    }
}

/// The bytes that a probe carries and that its reply echoes.
#[derive(Debug, Clone, PartialEq, Eq)]
pub struct Payload(pub Vec<u8>);

impl View for Payload {
    type V = Seq<u8>;

    open spec fn view(&self) -> Seq<u8> {
        self.0@
    }
}

impl Payload {
    pub fn from_inner(inner: Vec<u8>) -> (r: Self)
        ensures
            r@ == inner@,
    {
        Payload(inner)
    }

    pub fn inner(&self) -> (r: &Vec<u8>)
        ensures
            r@ == self@,
    {
        &self.0
    }

    pub fn into_inner(self) -> (r: Vec<u8>)
        ensures
            r@ == self@,
    {
        self.0
    }
}

impl Default for Payload {
    fn default() -> (r: Self)
        ensures
            r@ == Seq::<u8>::empty(),
    {
        Payload(Vec::new())
    }
}

impl From<Vec<u8>> for Payload {
    fn from(v: Vec<u8>) -> (r: Self) {
        Payload(v)
    }
}

impl FromSpecImpl<Vec<u8>> for Payload {
    open spec fn obeys_from_spec() -> bool {
        true
    }

    open spec fn from_spec(v: Vec<u8>) -> Self {
        Payload(v)
    }
}

/// The largest payload length that a length prefix may announce: what is
/// left of 65535 bytes after the header and the prefix itself.
pub open spec fn max_payload_len() -> int {
    0xffff - 8 - 2
}

/// The two bytes of a 16-bit value, most significant first.
pub open spec fn be_bytes(v: u16) -> Seq<u8> {
    seq![(v / 256) as u8, (v % 256) as u8]
}

/// The 16-bit value whose most significant byte is `hi`.
pub open spec fn be_value(hi: u8, lo: u8) -> u16 {
    (hi * 256 + lo) as u16
}

/// Length of a payload, as the two bytes in front of it announce it.
#[derive(Debug, Clone, Copy, PartialEq, Eq, Structural)]
pub struct LenWithPayloadLengthDelimited(u16);

impl View for LenWithPayloadLengthDelimited {
    type V = u16;

    closed spec fn view(&self) -> u16 {
        self.0
    }
}

impl LenWithPayloadLengthDelimited {
    /// Bytes that the prefix takes on the wire.
    pub fn size() -> (r: usize)
        ensures
            r == 2,
    {
        2
    }

    /// The largest length that `new` accepts.
    pub fn max() -> (r: u16)
        ensures
            r == max_payload_len(),
    {
        let header: u16 = ICMP_HEADER_SIZE as u16;
        u16::MAX - header - 2
    }

    /// The prefix for a payload of `v` bytes.
    pub fn new(v: usize) -> (r: Self)
        requires
            v <= max_payload_len(),
        ensures
            r@ == v,
    {
        LenWithPayloadLengthDelimited(v as u16)
    }

    /// The prefix for a payload of `v` bytes, or `None` where `v` is more
    /// than a prefix may announce.
    pub fn checked_new(v: usize) -> (r: Option<Self>)
        ensures
            r is Some <==> v <= max_payload_len(),
            r matches Some(len) ==> len@ == v,
    {
        if v <= Self::max() as usize {
            Some(Self::new(v))
        } else {
            None
        }
    }

    pub fn inner(&self) -> (r: &u16)
        ensures
            *r == self@,
    {
        &self.0
    }

    /// The prefix as it stands on the wire: big-endian.
    pub fn to_bytes(&self) -> (r: [u8; 2])
        ensures
            r@ == be_bytes(self@),
    {
        [(self.0 / 256) as u8, (self.0 % 256) as u8]
    }

    /// The prefix that two bytes of the wire hold. Any two bytes are a
    /// prefix, also two that announce more than `max`.
    pub fn from_bytes(bytes: [u8; 2]) -> (r: Self)
        ensures
            r@ == be_value(bytes[0], bytes[1]),
    {
        let hi: u16 = bytes[0] as u16;
        let lo: u16 = bytes[1] as u16;
        LenWithPayloadLengthDelimited(hi * 256 + lo)
    }
}

impl Default for LenWithPayloadLengthDelimited {
    fn default() -> (r: Self)
        ensures
            r@ == 0,
    {
        LenWithPayloadLengthDelimited(0)
    }
}

/// Writing a length and reading it back gives the length.
pub proof fn lemma_len_bytes_round_trip(v: u16)
    ensures
        be_bytes(v).len() == 2,
        be_value(be_bytes(v)[0], be_bytes(v)[1]) == v,
{
}

} // verus!
