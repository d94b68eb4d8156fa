//! Protocol addresses: the identifier of one conversation endpoint, a user
//! name together with a device index. Equality is structural and the address
//! is the key under which stores file their per-peer state.

use vstd::prelude::*;

verus! {

/// One endpoint of a conversation: a user identity plus a device index.
pub struct ProtocolAddress {
    name: Vec<u8>,
    device_id: u32,
}

/// Mathematical view of an address: the name as a byte sequence plus the
/// device index.
pub struct AddressView {
    pub name: Seq<u8>,
    pub device_id: u32,
}

impl View for ProtocolAddress {
    type V = AddressView;

    closed spec fn view(&self) -> AddressView {
        AddressView { name: self.name@, device_id: self.device_id }
    }
}

impl ProtocolAddress {
    pub fn new(name: Vec<u8>, device_id: u32) -> (r: ProtocolAddress)
        ensures
            r@.name == name@,
            r@.device_id == device_id,
    {
        ProtocolAddress { name, device_id }
    }

    pub fn name(&self) -> (r: &Vec<u8>)
        ensures
            r@ == self@.name,
    {
        &self.name
    }

    pub fn device_id(&self) -> (r: u32)
        ensures
            r == self@.device_id,
    {
        self.device_id
    }

    /// Structural equality of two addresses, the relation the stores key by.
    pub fn addr_eq(&self, other: &ProtocolAddress) -> (r: bool)
        ensures
            r == (self@ == other@),
    {
        let mut same = self.device_id == other.device_id && self.name.len() == other.name.len();
        if !same {
            proof {
                assert(self@.name =~= other@.name ==> self@.name.len() == other@.name.len());
            }
            return false;
        }
        let n = self.name.len();
        let mut i: usize = 0;
        while i < n
            invariant
                n == self.name.len(),
                n == other.name.len(),
                self.device_id == other.device_id,
                0 <= i <= n,
                forall|j: int| 0 <= j < i ==> self.name[j] == other.name[j],
            decreases n - i,
        {
            if self.name[i] != other.name[i] {
                proof {
                    assert(self@.name[i as int] != other@.name[i as int]);
                }
                return false;
            }
            i += 1;
        }
        proof {
            assert(self@.name =~= other@.name);
        }
        true
    }

    pub fn clone_address(&self) -> (r: ProtocolAddress)
        ensures
            r@ == self@,
    {
        let mut name: Vec<u8> = Vec::new();
        let mut i: usize = 0;
        while i < self.name.len()
            invariant
                0 <= i <= self.name.len(),
                name@ == self.name@.subrange(0, i as int),
            decreases self.name.len() - i,
        {
            name.push(self.name[i]);
            i += 1;
        }
        proof {
            assert(name@ =~= self.name@);
        }
        ProtocolAddress { name, device_id: self.device_id }
    }
}

} // verus!
