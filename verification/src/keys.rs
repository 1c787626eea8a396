use vstd::prelude::*;

verus! {

/// Compares two 32-byte values for equality, byte by byte.
pub(crate) fn bytes32_eq(a: &[u8; 32], b: &[u8; 32]) -> (r: bool)
    ensures
        r <==> a@ == b@,
{
    let mut i: usize = 0;
    while i < 32
        invariant
            0 <= i <= 32,
            forall|j: int| 0 <= j < i ==> a@[j] == b@[j],
        decreases 32 - i,
    {
        if a[i] != b[i] {
            assert(a@[i as int] != b@[i as int]);
            return false;
        }
        i += 1;
    }
    assert(a@ =~= b@);
    true
}

/// The 32-byte identity that must sign owner-restricted requests.
#[derive(Clone, Copy, Debug, PartialEq, Eq)]
pub struct AuthorityKey {
    pub bytes: [u8; 32],
}

impl View for AuthorityKey {
    type V = Seq<u8>;

    open spec fn view(&self) -> Seq<u8> {
        self.bytes@
    }
}

impl AuthorityKey {
    pub fn new(bytes: [u8; 32]) -> (r: AuthorityKey)
        ensures
            r@ == bytes@,
    {
        AuthorityKey { bytes }
    }

    /// The all-zero key: what an unset owner field would hold, and a key
    /// no authenticated caller signs with.
    pub open spec fn is_zero(&self) -> bool {
        forall|i: int| 0 <= i < 32 ==> self@[i] == 0
    }

    pub fn check_zero(&self) -> (r: bool)
        ensures
            r <==> self.is_zero(),
    {
        let mut i: usize = 0;
        while i < 32
            invariant
                0 <= i <= 32,
                forall|j: int| 0 <= j < i ==> self@[j] == 0,
            decreases 32 - i,
        {
            if self.bytes[i] != 0 {
                assert(self@[i as int] != 0);
                return false;
            }
            i += 1;
        }
        true
    }

    pub fn key_eq(&self, other: &AuthorityKey) -> (r: bool)
        ensures
            r <==> self@ == other@,
    {
        bytes32_eq(&self.bytes, &other.bytes)
    }
}

/// A deterministically derived 32-byte account address.
#[derive(Clone, Copy, Debug, PartialEq, Eq)]
pub struct VaultAddress {
    pub bytes: [u8; 32],
}

impl View for VaultAddress {
    type V = Seq<u8>;

    open spec fn view(&self) -> Seq<u8> {
        self.bytes@
    }
}

impl VaultAddress {
    pub fn new(bytes: [u8; 32]) -> (r: VaultAddress)
        ensures
            r@ == bytes@,
    {
        VaultAddress { bytes }
    }

    pub fn addr_eq(&self, other: &VaultAddress) -> (r: bool)
        ensures
            r <==> self@ == other@,
    {
        bytes32_eq(&self.bytes, &other.bytes)
    }
}

} // verus!
