//! A map from addresses to values, for the few entries that are in flight at
//! a time.

use vstd::prelude::*;

use crate::address::SocketAddress;

verus! {

/// A map keyed by address. Each address has at most one entry: inserting
/// under an address that has one replaces it.
pub struct AddressMap<T> {
    keys: Vec<SocketAddress>,
    values: Vec<T>,
}

impl<T> View for AddressMap<T> {
    type V = Map<SocketAddress, T>;

    closed spec fn view(&self) -> Map<SocketAddress, T> {
        Map::new(
            |a: SocketAddress| self.keys@.contains(a),
            |a: SocketAddress| self.values@[self.keys@.index_of(a)],
        )
    }
}

impl<T> AddressMap<T> {
    /// What holds of every map that `new` made, whatever was inserted and
    /// removed since: no address has two entries.
    pub closed spec fn wf(&self) -> bool {
        &&& self.keys@.len() == self.values@.len()
        &&& self.keys@.no_duplicates()
    }

    /// The map without entries.
    pub fn new() -> (r: Self)
        ensures
            r.wf(),
            r@ == Map::<SocketAddress, T>::empty(),
    {
        let r = AddressMap { keys: Vec::new(), values: Vec::new() };
        assert(r@ =~= Map::<SocketAddress, T>::empty());
        r
    }

    /// Where the entry of `addr` stands, if it has one.
    fn position(&self, addr: &SocketAddress) -> (r: Option<usize>)
        ensures
            r is Some <==> self.keys@.contains(*addr),
            r matches Some(i) ==> i < self.keys@.len() && self.keys@[i as int] == *addr,
    {
        let mut i: usize = 0;
        while i < self.keys.len()
            invariant
                i <= self.keys@.len(),
                forall|j: int| 0 <= j < i ==> self.keys@[j] != *addr,
            decreases self.keys@.len() - i,
        {
            if self.keys[i] == *addr {
                return Some(i);
            }
            i += 1;
        }
        None
    }

    /// The number of entries.
    pub fn len(&self) -> (r: usize)
        requires
            self.wf(),
        ensures
            r == self@.len(),
            self@.dom().finite(),
    {
        proof {
            self.keys@.unique_seq_to_set();
            assert(self@.dom() =~= self.keys@.to_set());
        }
        self.keys.len()
    }

    /// Whether `addr` has an entry.
    pub fn contains_key(&self, addr: &SocketAddress) -> (r: bool)
        ensures
            r == self@.contains_key(*addr),
    {
        self.position(addr).is_some()
    }

    /// Puts `value` under `addr` and hands back the value that it replaces,
    /// if there was one.
    pub fn insert(&mut self, addr: SocketAddress, value: T) -> (r: Option<T>)
        requires
            old(self).wf(),
        ensures
            final(self).wf(),
            final(self)@ == old(self)@.insert(addr, value),
            r == if old(self)@.contains_key(addr) {
                Some(old(self)@[addr])
            } else {
                None::<T>
            },
    {
        match self.position(&addr) {
            Some(i) => {
                self.values.push(value);
                let replaced = self.values.swap_remove(i);
                proof {
                    lemma_index_of(old(self).keys@, i as int);
                    assert forall|a: SocketAddress| self.keys@.contains(a) implies #[trigger] self@[a]
                        == old(self)@.insert(addr, value)[a] by {
                        let j = self.keys@.index_of(a);
                        if a != addr {
                            assert(j != i);
                        } else {
                            lemma_index_of(self.keys@, i as int);
                        }
                    }
                    assert(self@ =~= old(self)@.insert(addr, value));
                }
                Some(replaced)
            },
            None => {
                self.keys.push(addr);
                self.values.push(value);
                proof {
                    let n = old(self).keys@.len() as int;
                    assert(self.keys@[n] == addr);
                    lemma_index_of(self.keys@, n);
                    assert forall|a: SocketAddress| self.keys@.contains(a) implies #[trigger] self@[a]
                        == old(self)@.insert(addr, value)[a] by {
                        if a != addr {
                            let j = self.keys@.index_of(a);
                            assert(j < n);
                            assert(old(self).keys@[j] == a);
                            lemma_index_of(old(self).keys@, j);
                        }
                    }
                    assert forall|a: SocketAddress|
                        old(self)@.insert(addr, value).contains_key(a) implies self.keys@.contains(
                        a,
                    ) by {
                        if a != addr {
                            let j = old(self).keys@.index_of(a);
                            assert(self.keys@[j] == a);
                        }
                    }
                    assert(self@ =~= old(self)@.insert(addr, value));
                }
                None
            },
        }
    }

    /// Takes the entry of `addr` out and hands back its value, if there was
    /// one.
    pub fn remove(&mut self, addr: &SocketAddress) -> (r: Option<T>)
        requires
            old(self).wf(),
        ensures
            final(self).wf(),
            final(self)@ == old(self)@.remove(*addr),
            r == if old(self)@.contains_key(*addr) {
                Some(old(self)@[*addr])
            } else {
                None::<T>
            },
    {
        match self.position(addr) {
            Some(i) => {
                let _ = self.keys.remove(i);
                let removed = self.values.remove(i);
                proof {
                    lemma_index_of(old(self).keys@, i as int);
                    assert forall|a: SocketAddress| self.keys@.contains(a) implies old(
                        self,
                    )@.remove(*addr).contains_key(a) && #[trigger] self@[a] == old(self)@[a] by {
                        let j = self.keys@.index_of(a);
                        let k = if j < i { j } else { j + 1 };
                        assert(old(self).keys@[k] == a);
                        lemma_index_of(old(self).keys@, k);
                    }
                    assert forall|a: SocketAddress|
                        old(self)@.remove(*addr).contains_key(a) implies self.keys@.contains(a) by {
                        let k = old(self).keys@.index_of(a);
                        let j = if k < i { k } else { k - 1 };
                        assert(self.keys@[j] == a);
                    }
                    assert(self@ =~= old(self)@.remove(*addr));
                }
                Some(removed)
            },
            None => {
                assert(self@ =~= old(self)@.remove(*addr));
                None
            },
        }
    }
}

/// In a sequence without duplicates, the index that is found for an element
/// is the one it stands at.
proof fn lemma_index_of(keys: Seq<SocketAddress>, i: int)
    requires
        keys.no_duplicates(),
        0 <= i < keys.len(),
    ensures
        keys.contains(keys[i]),
        keys.index_of(keys[i]) == i,
{
    let j = keys.index_of(keys[i]);
    assert(0 <= j < keys.len() && keys[j] == keys[i]);
}

} // verus!
