//! Identities: the thirty-two byte values that name parties, assets,
//! marketplaces and keyless authorities.

use vstd::prelude::*;

verus! {

/// The number of bytes in an identity.
pub const IDENTITY_BYTES: usize = 32;

/// A party, an asset, a marketplace or a derived authority.
///
/// Two identities are the same exactly when their bytes are.
#[derive(Clone, Copy, Debug)]
pub struct Identity {
    pub bytes: [u8; IDENTITY_BYTES],
}

impl Identity {
    /// The identity with the given bytes.
    pub fn new(bytes: [u8; IDENTITY_BYTES]) -> (res: Identity)
        ensures
            res.bytes == bytes,
    {
        Identity { bytes }
    }

    /// Whether `self` and `other` are the same identity.
    pub fn same(&self, other: &Identity) -> (res: bool)
        ensures
            res == (*self == *other),
    {
        let mut i: usize = 0;
        while i < IDENTITY_BYTES
            invariant
                i <= IDENTITY_BYTES,
                forall|j: int| 0 <= j < i ==> self.bytes[j] == other.bytes[j],
            decreases IDENTITY_BYTES - i,
        {
            if self.bytes[i] != other.bytes[i] {
                return false;
            }
            i = i + 1;
        }
        proof {
            assert(self.bytes =~= other.bytes);
        }
        true
    }

    /// The bytes of the identity, in order.
    pub fn to_vec(&self) -> (res: Vec<u8>)
        ensures
            res@ == self.bytes@,
    {
        let mut out: Vec<u8> = Vec::new();
        let mut i: usize = 0;
        while i < IDENTITY_BYTES
            invariant
                i <= IDENTITY_BYTES,
                out@.len() == i,
                forall|j: int| 0 <= j < i ==> out@[j] == self.bytes[j],
            decreases IDENTITY_BYTES - i,
        {
            out.push(self.bytes[i]);
            i = i + 1;
        }
        proof {
            assert(out@ =~= self.bytes@);
        }
        out
    }
}

impl PartialEq for Identity {
    fn eq(&self, other: &Identity) -> (res: bool) {
        self.same(other)
    }
}

impl vstd::std_specs::cmp::PartialEqSpecImpl for Identity {
    open spec fn obeys_eq_spec() -> bool {
        true
    }

    open spec fn eq_spec(&self, other: &Identity) -> bool {
        *self == *other
    }
}

impl Eq for Identity {}

} // verus!
