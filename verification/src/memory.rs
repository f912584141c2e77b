//! Memory modes, the allowed URI schemes and the shape of content identifiers.

use vstd::prelude::*;
use vstd::utf8::{encode_utf8, is_ascii_chars_encode_utf8};
use crate::codec::starts_with;

verus! {

/// What kind of address the memory pointer of an agent holds.
#[derive(Clone, Copy, Debug, PartialEq, Eq, Structural)]
pub enum MemoryMode {
    /// No memory.
    Unset,
    /// A content identifier.
    Cid,
    /// An IPNS name.
    Ipns,
    /// An `https` URL.
    Url,
    /// A manifest reference.
    Manifest,
}

impl MemoryMode {
    /// The number under which a record stores the mode.
    pub open spec fn code(self) -> u8 {
        match self {
            MemoryMode::Unset => 0,
            MemoryMode::Cid => 1,
            MemoryMode::Ipns => 2,
            MemoryMode::Url => 3,
            MemoryMode::Manifest => 4,
        }
    }

    /// The mode that a stored number stands for, if any.
    pub open spec fn of_code(code: u8) -> Option<MemoryMode> {
        if code == 0 {
            Some(MemoryMode::Unset)
        } else if code == 1 {
            Some(MemoryMode::Cid)
        } else if code == 2 {
            Some(MemoryMode::Ipns)
        } else if code == 3 {
            Some(MemoryMode::Url)
        } else if code == 4 {
            Some(MemoryMode::Manifest)
        } else {
            None
        }
    }

    /// The number under which a record stores the mode.
    pub fn as_u8(self) -> (code: u8)
        ensures
            code == self.code(),
            MemoryMode::of_code(code) == Some(self),
    {
        match self {
            MemoryMode::Unset => 0,
            MemoryMode::Cid => 1,
            MemoryMode::Ipns => 2,
            MemoryMode::Url => 3,
            MemoryMode::Manifest => 4,
        }
    }

    /// The mode that a stored number stands for; `None` for a number above 4.
    pub fn from_u8(code: u8) -> (mode: Option<MemoryMode>)
        ensures
            mode == MemoryMode::of_code(code),
            mode is Some <==> code <= 4,
    {
        match code {
            0 => Some(MemoryMode::Unset),
            1 => Some(MemoryMode::Cid),
            2 => Some(MemoryMode::Ipns),
            3 => Some(MemoryMode::Url),
            4 => Some(MemoryMode::Manifest),
            _ => None,
        }
    }
}

/// The bytes of `https://`, in ASCII.
pub const HTTPS_SCHEME: [u8; 8] = [0x68, 0x74, 0x74, 0x70, 0x73, 0x3a, 0x2f, 0x2f];

/// The bytes of `ipfs://`, in ASCII.
pub const IPFS_SCHEME: [u8; 7] = [0x69, 0x70, 0x66, 0x73, 0x3a, 0x2f, 0x2f];

/// The bytes of `bafy`, in ASCII: how a version 1 content identifier starts.
pub const CID_V1_PREFIX: [u8; 4] = [0x62, 0x61, 0x66, 0x79];

/// The bytes of `Qm`, in ASCII: how a version 0 content identifier starts.
pub const CID_V0_PREFIX: [u8; 2] = [0x51, 0x6d];

/// The length of a version 0 content identifier.
pub const CID_V0_LEN: usize = 46;

/// The capacity of the pointer and URI buffers of a record.
pub const MAX_URI: usize = 96;

/// The four byte constants above spell what their names say.
pub proof fn lemma_constants_spell()
    ensures
        HTTPS_SCHEME@ == encode_utf8("https://"@),
        IPFS_SCHEME@ == encode_utf8("ipfs://"@),
        CID_V1_PREFIX@ == encode_utf8("bafy"@),
        CID_V0_PREFIX@ == encode_utf8("Qm"@),
{
    reveal_strlit("https://");
    reveal_strlit("ipfs://");
    reveal_strlit("bafy");
    reveal_strlit("Qm");
    is_ascii_chars_encode_utf8("https://"@);
    is_ascii_chars_encode_utf8("ipfs://"@);
    is_ascii_chars_encode_utf8("bafy"@);
    is_ascii_chars_encode_utf8("Qm"@);
    assert(HTTPS_SCHEME@ =~= encode_utf8("https://"@));
    assert(IPFS_SCHEME@ =~= encode_utf8("ipfs://"@));
    assert(CID_V1_PREFIX@ =~= encode_utf8("bafy"@));
    assert(CID_V0_PREFIX@ =~= encode_utf8("Qm"@));
}

/// Whether `uri` starts with `https://`.
pub open spec fn is_https(uri: Seq<u8>) -> bool {
    HTTPS_SCHEME@.is_prefix_of(uri)
}

/// Whether `uri` starts with `ipfs://`.
pub open spec fn is_ipfs(uri: Seq<u8>) -> bool {
    IPFS_SCHEME@.is_prefix_of(uri)
}

/// A lower-case letter or a digit from 2 to 7: the base32 alphabet.
pub open spec fn is_base32_lower(b: u8) -> bool {
    ('a' as u8 <= b && b <= 'z' as u8) || ('2' as u8 <= b && b <= '7' as u8)
}

/// A letter or digit of the base58btc alphabet: no `0`, `I`, `O` or `l`.
pub open spec fn is_base58btc(b: u8) -> bool {
    ||| ('1' as u8 <= b && b <= '9' as u8)
    ||| ('A' as u8 <= b && b <= 'H' as u8)
    ||| ('J' as u8 <= b && b <= 'N' as u8)
    ||| ('P' as u8 <= b && b <= 'Z' as u8)
    ||| ('a' as u8 <= b && b <= 'k' as u8)
    ||| ('m' as u8 <= b && b <= 'z' as u8)
}

/// The shape of a version 1 content identifier: `bafy`, and base32 throughout.
pub open spec fn is_cid_v1(ptr: Seq<u8>) -> bool {
    CID_V1_PREFIX@.is_prefix_of(ptr) && forall|i: int|
        0 <= i < ptr.len() ==> is_base32_lower(#[trigger] ptr[i])
}

/// The shape of a version 0 content identifier: `Qm`, 46 bytes, and base58btc throughout.
pub open spec fn is_cid_v0(ptr: Seq<u8>) -> bool {
    CID_V0_PREFIX@.is_prefix_of(ptr) && ptr.len() == CID_V0_LEN && forall|i: int|
        0 <= i < ptr.len() ==> is_base58btc(#[trigger] ptr[i])
}

/// The shape of a content identifier of either version, in at most `MAX_URI` bytes.
pub open spec fn is_cid_like(ptr: Seq<u8>) -> bool {
    0 < ptr.len() <= MAX_URI && (is_cid_v1(ptr) || is_cid_v0(ptr))
}

fn all_base32_lower(ptr: &[u8]) -> (all: bool)
    ensures
        all == forall|i: int| 0 <= i < ptr@.len() ==> is_base32_lower(#[trigger] ptr@[i]),
{
    let mut i: usize = 0;
    while i < ptr.len()
        invariant
            i <= ptr@.len(),
            forall|j: int| 0 <= j < i ==> is_base32_lower(#[trigger] ptr@[j]),
        decreases ptr@.len() - i,
    {
        let b = ptr[i];
        if !((0x61 <= b && b <= 0x7a) || (0x32 <= b && b <= 0x37)) {
            return false;
        }
        i += 1;
    }
    true
}

fn all_base58btc(ptr: &[u8]) -> (all: bool)
    ensures
        all == forall|i: int| 0 <= i < ptr@.len() ==> is_base58btc(#[trigger] ptr@[i]),
{
    let mut i: usize = 0;
    while i < ptr.len()
        invariant
            i <= ptr@.len(),
            forall|j: int| 0 <= j < i ==> is_base58btc(#[trigger] ptr@[j]),
        decreases ptr@.len() - i,
    {
        let b = ptr[i];
        let in_alphabet = (0x31 <= b && b <= 0x39) || (0x41 <= b && b <= 0x48) || (0x4a <= b && b
            <= 0x4e) || (0x50 <= b && b <= 0x5a) || (0x61 <= b && b <= 0x6b) || (0x6d <= b && b
            <= 0x7a);
        if !in_alphabet {
            return false;
        }
        i += 1;
    }
    true
}

/// Whether `ptr` has the shape of a content identifier.
pub fn cid_like(ptr: &[u8]) -> (like: bool)
    ensures
        like == is_cid_like(ptr@),
{
    let len_ok = ptr.len() > 0 && ptr.len() <= MAX_URI;
    if starts_with(ptr, &CID_V1_PREFIX) {
        proof {
            lemma_prefixes_differ(ptr@);
        }
        len_ok && all_base32_lower(ptr)
    } else if starts_with(ptr, &CID_V0_PREFIX) {
        len_ok && all_base58btc(ptr) && ptr.len() == CID_V0_LEN
    } else {
        false
    }
}

/// Nothing starts with both `bafy` and `Qm`.
proof fn lemma_prefixes_differ(ptr: Seq<u8>)
    ensures
        !(CID_V1_PREFIX@.is_prefix_of(ptr) && CID_V0_PREFIX@.is_prefix_of(ptr)),
{
    if CID_V1_PREFIX@.is_prefix_of(ptr) && CID_V0_PREFIX@.is_prefix_of(ptr) {
        assert(ptr.subrange(0, 4)[0] == CID_V1_PREFIX@[0]);
        assert(ptr.subrange(0, 2)[0] == CID_V0_PREFIX@[0]);
    }
}

} // verus!
