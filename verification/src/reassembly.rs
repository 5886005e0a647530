//! The bytes of messages that have not arrived whole.

use vstd::prelude::*;

use crate::address::SocketAddress;
use crate::address_map::AddressMap;

verus! {

/// The bytes of a message so far: what was kept for the source, if
/// anything, followed by what was just read from it.
pub open spec fn reassembled(
    held: Map<SocketAddress, Seq<u8>>,
    addr: SocketAddress,
    bytes_read: Seq<u8>,
) -> Seq<u8> {
    if held.contains_key(addr) {
        held[addr] + bytes_read
    } else {
        bytes_read
    }
}

/// For each source whose last bytes were the beginning of a message, those
/// bytes.
pub struct ReassemblyBuffer {
    held: AddressMap<Vec<u8>>,
}

impl View for ReassemblyBuffer {
    type V = Map<SocketAddress, Seq<u8>>;

    closed spec fn view(&self) -> Map<SocketAddress, Seq<u8>> {
        self.held@.map_values(|bytes: Vec<u8>| bytes@)
    }
}

impl ReassemblyBuffer {
    /// What holds of every buffer that `new` made, whatever was done with it
    /// since.
    pub closed spec fn wf(&self) -> bool {
        self.held.wf()
    }

    /// The buffer that holds nothing.
    pub fn new() -> (r: Self)
        ensures
            r.wf(),
            r@ == Map::<SocketAddress, Seq<u8>>::empty(),
    {
        let r = ReassemblyBuffer { held: AddressMap::new() };
        assert(r@ =~= Map::<SocketAddress, Seq<u8>>::empty());
        r
    }

    /// Whether bytes are kept for `addr`.
    pub fn contains_key(&self, addr: &SocketAddress) -> (r: bool)
        ensures
            r == self@.contains_key(*addr),
    {
        self.held.contains_key(addr)
    }

    /// Takes out what was kept for `addr` and hands it back with
    /// `bytes_read` behind it.
    pub fn take(&mut self, addr: SocketAddress, bytes_read: &[u8]) -> (r: Vec<u8>)
        requires
            old(self).wf(),
        ensures
            final(self).wf(),
            final(self)@ == old(self)@.remove(addr),
            r@ == reassembled(old(self)@, addr, bytes_read@),
    {
        let mut bytes = match self.held.remove(&addr) {
            Some(bytes_present) => bytes_present,
            None => Vec::new(),
        };
        bytes.extend_from_slice(bytes_read);
        assert(self@ =~= old(self)@.remove(addr));
        assert(bytes@ =~= reassembled(old(self)@, addr, bytes_read@));
        bytes
    }

    /// Keeps `bytes` for `addr`, in place of what was kept for it before.
    pub fn keep(&mut self, addr: SocketAddress, bytes: Vec<u8>)
        requires
            old(self).wf(),
        ensures
            final(self).wf(),
            final(self)@ == old(self)@.insert(addr, bytes@),
    {
        let _ = self.held.insert(addr, bytes);
        assert(self@ =~= old(self)@.insert(addr, bytes@));
    }
}

} // verus!
