//! The address that identifies a remote device.

use vstd::prelude::*;

verus! {

/// Six-byte identifier of a remote device. All per-device state is keyed by
/// it; two addresses are the same device exactly when all six bytes agree.
#[derive(Clone, Copy, Debug, PartialEq, Eq, Hash)]
pub struct RawAddress {
    pub address: [u8; 6],
}

impl RawAddress {
    /// An address from its six bytes.
    pub fn new(address: [u8; 6]) -> (addr: RawAddress)
        ensures
            addr.address == address,
    {
        RawAddress { address }
    }

    /// Whether two addresses name the same device.
    pub fn same(&self, other: &RawAddress) -> (eq: bool)
        ensures
            eq == (*self == *other),
    {
        let eq = self.address[0] == other.address[0] && self.address[1] == other.address[1]
            && self.address[2] == other.address[2] && self.address[3] == other.address[3]
            && self.address[4] == other.address[4] && self.address[5] == other.address[5];
        proof {
            broadcast use vstd::array::group_array_axioms;

            if eq {
                assert(self.address =~= other.address);
            }
        }
        eq
    }
}

} // verus!
