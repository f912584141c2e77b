//! Keys: the addresses of records and the identities of signers.

use vstd::prelude::*;

verus! {

/// A 32-byte account address or signer identity.
#[derive(Clone, Copy, Debug)]
pub struct Pubkey {
    pub bytes: [u8; 32],
}

impl View for Pubkey {
    type V = Seq<u8>;

    open spec fn view(&self) -> Seq<u8> {
        self.bytes@
    }
}

/// Whether two 32-byte values hold the same bytes.
pub fn bytes32_eq(a: &[u8; 32], b: &[u8; 32]) -> (same: bool)
    ensures
        same == (a@ == b@),
        same == (*a == *b),
{
    let mut i: usize = 0;
    while i < 32
        invariant
            i <= 32,
            forall|j: int| 0 <= j < i ==> a@[j] == b@[j],
        decreases 32 - i,
    {
        if a[i] != b[i] {
            return false;
        }
        i += 1;
    }
    assert(a@ =~= b@);
    assert(*a =~= *b);
    true
}

/// Whether a 32-byte value is all zero.
pub fn bytes32_is_zero(a: &[u8; 32]) -> (zero: bool)
    ensures
        zero == (a@ == Seq::new(32, |i: int| 0u8)),
{
    let mut i: usize = 0;
    while i < 32
        invariant
            i <= 32,
            forall|j: int| 0 <= j < i ==> a@[j] == 0,
        decreases 32 - i,
    {
        if a[i] != 0 {
            return false;
        }
        i += 1;
    }
    assert(a@ =~= Seq::new(32, |i: int| 0u8));
    true
}

impl Pubkey {
    /// The key from its bytes.
    pub fn new_from_array(bytes: [u8; 32]) -> (key: Pubkey)
        ensures
            key.bytes == bytes,
            key@ == bytes@,
    {
        Pubkey { bytes }
    }

    /// The bytes of the key.
    pub fn to_bytes(&self) -> (bytes: [u8; 32])
        ensures
            bytes == self.bytes,
    {
        self.bytes
    }

    /// Whether this is the all-zero key, which stands for "no key".
    pub open spec fn is_default(&self) -> bool {
        self@ == Seq::new(32, |i: int| 0u8)
    }

    /// Whether this is the all-zero key.
    pub fn is_null(&self) -> (null: bool)
        ensures
            null == self.is_default(),
    {
        bytes32_is_zero(&self.bytes)
    }
}

impl Default for Pubkey {
    fn default() -> (key: Pubkey)
        ensures
            key.is_default(),
    {
        let key = Pubkey { bytes: [0u8; 32] };
        assert(key.bytes@ =~= Seq::new(32, |i: int| 0u8));
        key
    }
}

impl PartialEq for Pubkey {
    fn eq(&self, other: &Pubkey) -> (same: bool) {
        bytes32_eq(&self.bytes, &other.bytes)
    }
}

impl Eq for Pubkey {

}

impl vstd::std_specs::cmp::PartialEqSpecImpl for Pubkey {
    open spec fn obeys_eq_spec() -> bool {
        true
    }

    open spec fn eq_spec(&self, other: &Pubkey) -> bool {
        *self == *other
    }
}

} // verus!
