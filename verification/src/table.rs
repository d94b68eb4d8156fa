//! Small association tables backing the in-memory stores: entry lists
//! where the most recently inserted binding for a key wins, viewed as a
//! `Map` in specifications.

use vstd::prelude::*;
use crate::address::{AddressView, ProtocolAddress};

verus! {

/// The map an entry list denotes: the earliest entry for a key shadows
/// later ones.
pub open spec fn spec_entry_map<V>(entries: Seq<(u32, V)>) -> Map<u32, V>
    decreases entries.len(),
{
    if entries.len() == 0 {
        Map::empty()
    } else {
        spec_entry_map(entries.skip(1)).insert(entries[0].0, entries[0].1)
    }
}

proof fn lemma_entry_map_first<V>(entries: Seq<(u32, V)>, i: int)
    requires
        0 <= i < entries.len(),
        forall|j: int| 0 <= j < i ==> (#[trigger] entries[j]).0 != entries[i].0,
    ensures
        spec_entry_map(entries).contains_key(entries[i].0),
        spec_entry_map(entries)[entries[i].0] == entries[i].1,
    decreases i,
{
    if i > 0 {
        assert(entries.skip(1)[i - 1] == entries[i]);
        assert(forall|j: int|
            0 <= j < i - 1 ==> (#[trigger] entries.skip(1)[j]).0 != entries.skip(1)[i - 1].0)
            by {
            assert(forall|j: int| 0 <= j < i - 1 ==> entries.skip(1)[j] == entries[j + 1]);
        }
        lemma_entry_map_first(entries.skip(1), i - 1);
    }
}

proof fn lemma_entry_map_absent<V>(entries: Seq<(u32, V)>, k: u32)
    requires
        forall|j: int| 0 <= j < entries.len() ==> (#[trigger] entries[j]).0 != k,
    ensures
        !spec_entry_map(entries).contains_key(k),
    decreases entries.len(),
{
    if entries.len() > 0 {
        assert(forall|j: int|
            0 <= j < entries.skip(1).len() ==> (#[trigger] entries.skip(1)[j]).0 != k) by {
            assert(forall|j: int|
                0 <= j < entries.skip(1).len() ==> entries.skip(1)[j] == entries[j + 1]);
        }
        lemma_entry_map_absent(entries.skip(1), k);
    }
}

/// A table keyed by numeric key ids.
pub struct U32Table<V> {
    entries: Vec<(u32, V)>,
}

impl<V> U32Table<V> {
    /// The map this table denotes.
    pub closed spec fn map_spec(&self) -> Map<u32, V> {
        spec_entry_map(self.entries@)
    }

    pub fn new() -> (r: U32Table<V>)
        ensures
            r.map_spec() == Map::<u32, V>::empty(),
    {
        U32Table { entries: Vec::new() }
    }

    pub fn get(&self, key: u32) -> (r: Option<&V>)
        ensures
            match r {
                Some(v) => self.map_spec().contains_key(key) && *v == self.map_spec()[key],
                None => !self.map_spec().contains_key(key),
            },
    {
        let n = self.entries.len();
        let mut i: usize = 0;
        while i < n
            invariant
                n == self.entries@.len(),
                0 <= i <= n,
                forall|j: int| 0 <= j < i ==> (#[trigger] self.entries@[j]).0 != key,
            decreases n - i,
        {
            let entry = &self.entries[i];
            if entry.0 == key {
                proof {
                    lemma_entry_map_first(self.entries@, i as int);
                }
                return Some(&entry.1);
            }
            i += 1;
        }
        proof {
            lemma_entry_map_absent(self.entries@, key);
        }
        None
    }

    pub fn put(&mut self, key: u32, value: V)
        ensures
            final(self).map_spec() == old(self).map_spec().insert(key, value),
    {
        self.entries.insert(0, (key, value));
        proof {
            assert(self.entries@.skip(1) =~= old(self).entries@);
        }
    }
}

/// The map an address-keyed entry list denotes.
pub open spec fn spec_addr_entry_map<V>(entries: Seq<(ProtocolAddress, V)>) -> Map<
    AddressView,
    V,
>
    decreases entries.len(),
{
    if entries.len() == 0 {
        Map::empty()
    } else {
        spec_addr_entry_map(entries.skip(1)).insert(entries[0].0@, entries[0].1)
    }
}

proof fn lemma_addr_entry_map_first<V>(entries: Seq<(ProtocolAddress, V)>, i: int)
    requires
        0 <= i < entries.len(),
        forall|j: int| 0 <= j < i ==> (#[trigger] entries[j]).0@ != entries[i].0@,
    ensures
        spec_addr_entry_map(entries).contains_key(entries[i].0@),
        spec_addr_entry_map(entries)[entries[i].0@] == entries[i].1,
    decreases i,
{
    if i > 0 {
        assert(entries.skip(1)[i - 1] == entries[i]);
        assert(forall|j: int|
            0 <= j < i - 1 ==> (#[trigger] entries.skip(1)[j]).0@ != entries.skip(1)[i - 1].0@)
            by {
            assert(forall|j: int| 0 <= j < i - 1 ==> entries.skip(1)[j] == entries[j + 1]);
        }
        lemma_addr_entry_map_first(entries.skip(1), i - 1);
    }
}

proof fn lemma_addr_entry_map_absent<V>(entries: Seq<(ProtocolAddress, V)>, k: AddressView)
    requires
        forall|j: int| 0 <= j < entries.len() ==> (#[trigger] entries[j]).0@ != k,
    ensures
        !spec_addr_entry_map(entries).contains_key(k),
    decreases entries.len(),
{
    if entries.len() > 0 {
        assert(forall|j: int|
            0 <= j < entries.skip(1).len() ==> (#[trigger] entries.skip(1)[j]).0@ != k) by {
            assert(forall|j: int|
                0 <= j < entries.skip(1).len() ==> entries.skip(1)[j] == entries[j + 1]);
        }
        lemma_addr_entry_map_absent(entries.skip(1), k);
    }
}

/// A table keyed by protocol addresses.
pub struct AddrTable<V> {
    entries: Vec<(ProtocolAddress, V)>,
}

impl<V> AddrTable<V> {
    /// The map this table denotes.
    pub closed spec fn map_spec(&self) -> Map<AddressView, V> {
        spec_addr_entry_map(self.entries@)
    }

    pub fn new() -> (r: AddrTable<V>)
        ensures
            r.map_spec() == Map::<AddressView, V>::empty(),
    {
        AddrTable { entries: Vec::new() }
    }

    pub fn get(&self, key: &ProtocolAddress) -> (r: Option<&V>)
        ensures
            match r {
                Some(v) => self.map_spec().contains_key(key@) && *v == self.map_spec()[key@],
                None => !self.map_spec().contains_key(key@),
            },
    {
        let n = self.entries.len();
        let mut i: usize = 0;
        while i < n
            invariant
                n == self.entries@.len(),
                0 <= i <= n,
                forall|j: int| 0 <= j < i ==> (#[trigger] self.entries@[j]).0@ != key@,
            decreases n - i,
        {
            let entry = &self.entries[i];
            if entry.0.addr_eq(key) {
                proof {
                    lemma_addr_entry_map_first(self.entries@, i as int);
                }
                return Some(&entry.1);
            }
            i += 1;
        }
        proof {
            lemma_addr_entry_map_absent(self.entries@, key@);
        }
        None
    }

    pub fn put(&mut self, key: ProtocolAddress, value: V)
        ensures
            final(self).map_spec() == old(self).map_spec().insert(key@, value),
    {
        self.entries.insert(0, (key, value));
        proof {
            assert(self.entries@.skip(1) =~= old(self).entries@);
        }
    }
}

} // verus!
