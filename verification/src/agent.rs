//! The agent record and the operations on it: creation, card, memory, lock,
//! activity, closing and change of owner.

use vstd::prelude::*;
use vstd::utf8::{decode_utf8, encode_utf8, valid_utf8};
use crate::codec::{is_encoding, read_fixed, starts_with, write_fixed, zero_padded};
use crate::error::PlatformError;
use crate::events::{
    AgentActiveSet,
    AgentClosed,
    AgentCreated,
    CardSet,
    MemoryLocked,
    MemoryUpdated,
    OwnerTransferred,
};
use crate::flags::{
    flag_is_set,
    flags_with,
    flags_without,
    has_flag,
    lemma_flag_added,
    lemma_flag_removed,
    lemma_flags_disjoint,
    lemma_initial_flags,
    with_flag,
    without_flag,
    FLAG_ACTIVE,
    FLAG_HAS_STAKING,
    FLAG_LOCKED,
};
use crate::memory::{
    cid_like,
    is_cid_like,
    is_https,
    is_ipfs,
    MemoryMode,
    HTTPS_SCHEME,
    IPFS_SCHEME,
    MAX_URI,
};
use crate::pubkey::{bytes32_is_zero, Pubkey};
use crate::text::{preview_bytes, preview_str, preview_text};

verus! {

/// The record of one agent: who made it and who owns it, its card, its
/// memory pointer and its flags. Pointer and URI are stored in buffers of
/// `MAX_URI` bytes, each with its length in front and zeros behind.
#[derive(Clone, Copy, Debug, PartialEq, Eq)]
pub struct AgentRegistry {
    pub version: u8,
    /// Who created the agent. Never changes.
    pub creator: Pubkey,
    /// Who may change the agent.
    pub owner: Pubkey,
    pub memory_mode: u8,
    pub memory_ptr_len: u8,
    pub memory_ptr: [u8; 96],
    pub memory_hash: [u8; 32],
    pub card_uri_len: u8,
    pub card_uri: [u8; 96],
    pub card_hash: [u8; 32],
    pub flags: u32,
    pub bump: u8,
    pub _padding: [u8; 7],
}

/// What an agent record says, without its layout.
pub struct AgentView {
    pub version: u8,
    pub creator: Pubkey,
    pub owner: Pubkey,
    pub memory_mode: u8,
    pub memory_ptr: Seq<u8>,
    pub memory_hash: Seq<u8>,
    pub card_uri: Seq<u8>,
    pub card_hash: Seq<u8>,
    pub active: bool,
    pub locked: bool,
    pub has_staking: bool,
}

impl View for AgentRegistry {
    type V = AgentView;

    open spec fn view(&self) -> AgentView {
        AgentView {
            version: self.version,
            creator: self.creator,
            owner: self.owner,
            memory_mode: self.memory_mode,
            memory_ptr: self.memory_ptr@.take(self.memory_ptr_len as int),
            memory_hash: self.memory_hash@,
            card_uri: self.card_uri@.take(self.card_uri_len as int),
            card_hash: self.card_hash@,
            active: has_flag(self.flags, FLAG_ACTIVE),
            locked: has_flag(self.flags, FLAG_LOCKED),
            has_staking: has_flag(self.flags, FLAG_HAS_STAKING),
        }
    }
}

/// Thirty-two zero bytes: the hash that stands for "no hash".
pub open spec fn zero_hash() -> Seq<u8> {
    Seq::new(32, |i: int| 0u8)
}

/// No hash was given, or the zero hash.
pub open spec fn hash_is_unset(hash: Option<[u8; 32]>) -> bool {
    hash matches Some(h) ==> h@ == zero_hash()
}

/// A hash was given and it is not the zero hash.
pub open spec fn hash_is_set(hash: Option<[u8; 32]>) -> bool {
    hash matches Some(h) && h@ != zero_hash()
}

/// The mode table: which pointer and hash go with which mode. Without a mode
/// there is neither; a content identifier has its shape and no hash; a name, a
/// manifest and a URL have a pointer and a hash, and a URL starts with `https://`.
pub open spec fn memory_table_accepts(mode: MemoryMode, ptr: Seq<u8>, hash: Option<[u8; 32]>) -> bool {
    match mode {
        MemoryMode::Unset => ptr.len() == 0 && hash_is_unset(hash),
        MemoryMode::Cid => is_cid_like(ptr) && hash_is_unset(hash),
        MemoryMode::Ipns | MemoryMode::Manifest => ptr.len() > 0 && hash_is_set(hash),
        MemoryMode::Url => ptr.len() > 0 && hash_is_set(hash) && is_https(ptr),
    }
}

/// Why mode, pointer and hash are refused, or `None` where they are taken.
/// A pointer that does not fit the buffer is `InvalidLength`. What the table
/// does not accept is `InvalidMemoryFields`, but for a URL that is in order
/// except for its scheme, which is `InsecureUrl`. A URL is text: one that the
/// table accepts but that is not UTF-8 is `InvalidMemoryFields` too.
pub open spec fn memory_fields_error(mode: u8, ptr: Seq<u8>, hash: Option<[u8; 32]>) -> Option<
    PlatformError,
> {
    if ptr.len() > MAX_URI {
        Some(PlatformError::InvalidLength)
    } else {
        match MemoryMode::of_code(mode) {
            None => Some(PlatformError::InvalidMemoryFields),
            Some(m) => if !memory_table_accepts(m, ptr, hash) {
                if m == MemoryMode::Url && ptr.len() > 0 && hash_is_set(hash) && valid_utf8(ptr) {
                    Some(PlatformError::InsecureUrl)
                } else {
                    Some(PlatformError::InvalidMemoryFields)
                }
            } else if m == MemoryMode::Url && !valid_utf8(ptr) {
                Some(PlatformError::InvalidMemoryFields)
            } else {
                None
            },
        }
    }
}

/// The hash that is stored with a mode: the one given for the modes that ask
/// for one, the zero hash for the others.
pub open spec fn stored_hash(mode: u8, hash: Option<[u8; 32]>) -> Seq<u8> {
    if mode >= 2 && hash is Some {
        hash->0@
    } else {
        zero_hash()
    }
}

/// Why a card URI is refused, or `None` where it is in order: between 1 and
/// `MAX_URI` bytes, starting with `https://` or `ipfs://`.
pub open spec fn card_uri_error(uri: Seq<u8>) -> Option<PlatformError> {
    if uri.len() == 0 || uri.len() > MAX_URI {
        Some(PlatformError::InvalidLength)
    } else if !(is_https(uri) || is_ipfs(uri)) {
        Some(PlatformError::InsecureUrl)
    } else {
        None
    }
}

impl AgentRegistry {
    /// The bytes a stored record takes.
    pub const SPACE: usize = 1 + 32 + 32 + 1 + 1 + 96 + 32 + 1 + 96 + 32 + 4 + 1 + 7;

    /// What holds of every record that the operations below made: the card is
    /// there and has an allowed scheme, the mode is a known one, and both
    /// buffers are encodings.
    pub open spec fn wf(&self) -> bool {
        &&& self.memory_mode <= 4
        &&& is_encoding(self.memory_ptr@, self.memory_ptr_len as nat)
        &&& is_encoding(self.card_uri@, self.card_uri_len as nat)
        &&& card_uri_error(self@.card_uri) is None
    }

    /// The active flag is set.
    pub open spec fn spec_is_active(&self) -> bool {
        has_flag(self.flags, FLAG_ACTIVE)
    }

    /// The lock flag is set.
    pub open spec fn spec_is_locked(&self) -> bool {
        has_flag(self.flags, FLAG_LOCKED)
    }

    /// The staking flag is set.
    pub open spec fn spec_has_staking(&self) -> bool {
        has_flag(self.flags, FLAG_HAS_STAKING)
    }

    /// Whether the agent takes part in the registry.
    #[verifier::when_used_as_spec(spec_is_active)]
    pub fn is_active(&self) -> (set: bool)
        ensures
            set == self.spec_is_active(),
    {
        flag_is_set(self.flags, FLAG_ACTIVE)
    }

    /// Whether the memory fields are frozen.
    #[verifier::when_used_as_spec(spec_is_locked)]
    pub fn is_locked(&self) -> (set: bool)
        ensures
            set == self.spec_is_locked(),
    {
        flag_is_set(self.flags, FLAG_LOCKED)
    }

    /// Whether a staking pool may be created for the agent.
    #[verifier::when_used_as_spec(spec_has_staking)]
    pub fn has_staking(&self) -> (set: bool)
        ensures
            set == self.spec_has_staking(),
    {
        flag_is_set(self.flags, FLAG_HAS_STAKING)
    }

    /// The card URI; `None` where the buffer is no encoding.
    pub fn card_uri_bytes(&self) -> (res: Option<Vec<u8>>)
        ensures
            res is Some <==> is_encoding(self.card_uri@, self.card_uri_len as nat),
            res matches Some(uri) ==> uri@ == self@.card_uri,
    {
        read_fixed(&self.card_uri, self.card_uri_len)
    }

    /// The memory pointer; `None` where the buffer is no encoding.
    pub fn memory_ptr_bytes(&self) -> (res: Option<Vec<u8>>)
        ensures
            res is Some <==> is_encoding(self.memory_ptr@, self.memory_ptr_len as nat),
            res matches Some(ptr) ==> ptr@ == self@.memory_ptr,
    {
        read_fixed(&self.memory_ptr, self.memory_ptr_len)
    }
}

/// The accounts of an operation that changes an agent: the record and who signed.
#[derive(Clone, Copy, Debug, PartialEq, Eq)]
pub struct UpdateAgent {
    pub agent: AgentRegistry,
    /// The signer. Only the owner of the agent may change it.
    pub owner: Pubkey,
}

impl UpdateAgent {
    /// Whether the signer is the owner of the agent.
    pub open spec fn authorized(&self) -> bool {
        self.agent.owner == self.owner
    }
}

/// Why `set_memory` refuses, or `None` where it goes through.
pub open spec fn set_memory_error(
    ctx: UpdateAgent,
    mode: u8,
    ptr: Seq<u8>,
    hash: Option<[u8; 32]>,
) -> Option<PlatformError> {
    if !ctx.authorized() {
        Some(PlatformError::Unauthorized)
    } else if ctx.agent.is_locked() {
        Some(PlatformError::MemoryLocked)
    } else {
        memory_fields_error(mode, ptr, hash)
    }
}

/// `post` is `pre` with mode, pointer and hash replaced.
pub open spec fn memory_replaced(
    pre: AgentRegistry,
    post: AgentRegistry,
    mode: u8,
    ptr: Seq<u8>,
    hash: Option<[u8; 32]>,
) -> bool {
    &&& post == (AgentRegistry {
        memory_mode: mode,
        memory_ptr_len: ptr.len() as u8,
        memory_ptr: post.memory_ptr,
        memory_hash: post.memory_hash,
        ..pre
    })
    &&& post.memory_ptr@ == zero_padded(ptr, MAX_URI as nat)
    &&& post.memory_hash@ == stored_hash(mode, hash)
}

/// Replaces mode, pointer and hash of the agent's memory, if the signer is
/// the owner, the memory is not locked and the mode table accepts the three.
pub fn set_memory(ctx: &mut UpdateAgent, mode: u8, ptr: Vec<u8>, hash_opt: Option<[u8; 32]>) -> (res:
    Result<MemoryUpdated, PlatformError>)
    ensures
        match res {
            Ok(event) => {
                &&& set_memory_error(*old(ctx), mode, ptr@, hash_opt) is None
                &&& final(ctx).owner == old(ctx).owner
                &&& memory_replaced(old(ctx).agent, final(ctx).agent, mode, ptr@, hash_opt)
                &&& final(ctx).agent@.memory_ptr == ptr@
                &&& old(ctx).agent.wf() ==> final(ctx).agent.wf()
                &&& event.creator == old(ctx).agent.creator
                &&& event.mode == mode
                &&& event.ptr_preview@ == preview_text(ptr@)
                &&& valid_utf8(preview_bytes(ptr@)) ==> event.ptr_preview@ == decode_utf8(
                    preview_bytes(ptr@),
                )
                &&& event.hash@ == stored_hash(mode, hash_opt)
            },
            Err(e) => set_memory_error(*old(ctx), mode, ptr@, hash_opt) == Some(e) && *final(ctx)
                == *old(ctx),
        },
{
    if !(ctx.agent.owner == ctx.owner) {
        return Err(PlatformError::Unauthorized);
    }
    if ctx.agent.is_locked() {
        return Err(PlatformError::MemoryLocked);
    }
    if ptr.len() > MAX_URI {
        return Err(PlatformError::InvalidLength);
    }
    let mode = match MemoryMode::from_u8(mode) {
        Some(m) => m,
        None => {
            return Err(PlatformError::InvalidMemoryFields);
        },
    };
    let zero = [0u8; 32];
    assert(zero@ =~= zero_hash());
    let hash_unset = match hash_opt {
        Some(h) => bytes32_is_zero(&h),
        None => true,
    };
    let hash: [u8; 32];
    match mode {
        MemoryMode::Unset => {
            if !ptr.is_empty() {
                return Err(PlatformError::InvalidMemoryFields);
            }
            if !hash_unset {
                return Err(PlatformError::InvalidMemoryFields);
            }
            hash = zero;
        },
        MemoryMode::Cid => {
            if ptr.is_empty() {
                return Err(PlatformError::InvalidMemoryFields);
            }
            if !hash_unset {
                return Err(PlatformError::InvalidMemoryFields);
            }
            if !cid_like(ptr.as_slice()) {
                return Err(PlatformError::InvalidMemoryFields);
            }
            hash = zero;
        },
        MemoryMode::Ipns | MemoryMode::Manifest | MemoryMode::Url => {
            if ptr.is_empty() {
                return Err(PlatformError::InvalidMemoryFields);
            }
            let h = match hash_opt {
                Some(h) => h,
                None => {
                    return Err(PlatformError::InvalidMemoryFields);
                },
            };
            if hash_unset {
                return Err(PlatformError::InvalidMemoryFields);
            }
            if let MemoryMode::Url = mode {
                let url = match core::str::from_utf8(ptr.as_slice()) {
                    Ok(s) => s,
                    Err(_) => {
                        return Err(PlatformError::InvalidMemoryFields);
                    },
                };
                if !starts_with(url.as_bytes(), &HTTPS_SCHEME) {
                    return Err(PlatformError::InsecureUrl);
                }
            }
            hash = h;
        },
    }
    ctx.agent.memory_hash = hash;
    ctx.agent.memory_mode = mode.as_u8();
    ctx.agent.memory_ptr_len = ptr.len() as u8;
    write_fixed(&mut ctx.agent.memory_ptr, ptr.as_slice());
    proof {
        crate::codec::lemma_write_then_read(ptr@, MAX_URI as nat);
    }
    let preview = preview_str(ptr.as_slice());
    Ok(
        MemoryUpdated {
            creator: ctx.agent.creator,
            mode: mode.as_u8(),
            ptr_preview: preview,
            hash: ctx.agent.memory_hash,
        },
    )
}

/// `post` is `pre` with the card replaced.
pub open spec fn card_replaced(pre: AgentRegistry, post: AgentRegistry, uri: Seq<u8>, hash: [u8; 32]) -> bool {
    &&& post == (AgentRegistry {
        card_uri_len: uri.len() as u8,
        card_uri: post.card_uri,
        card_hash: hash,
        ..pre
    })
    &&& post.card_uri@ == zero_padded(uri, MAX_URI as nat)
}

/// Why `set_card` refuses, or `None` where it goes through.
pub open spec fn set_card_error(ctx: UpdateAgent, uri: Seq<u8>) -> Option<PlatformError> {
    if !ctx.authorized() {
        Some(PlatformError::Unauthorized)
    } else {
        card_uri_error(uri)
    }
}

/// Checks a card URI: its length first, then its scheme.
pub fn check_card_uri(uri: &[u8]) -> (res: Result<(), PlatformError>)
    ensures
        res is Ok <==> card_uri_error(uri@) is None,
        res matches Err(e) ==> card_uri_error(uri@) == Some(e),
{
    if !(uri.len() > 0 && uri.len() <= MAX_URI) {
        return Err(PlatformError::InvalidLength);
    }
    let ok_scheme = starts_with(uri, &HTTPS_SCHEME) || starts_with(uri, &IPFS_SCHEME);
    if !ok_scheme {
        return Err(PlatformError::InsecureUrl);
    }
    Ok(())
}

/// Replaces the card of the agent, if the signer is the owner and the URI is in order.
pub fn set_card(ctx: &mut UpdateAgent, card_uri: String, card_hash: [u8; 32]) -> (res: Result<
    CardSet,
    PlatformError,
>)
    ensures
        match res {
            Ok(event) => {
                &&& set_card_error(*old(ctx), encode_utf8(card_uri@)) is None
                &&& final(ctx).owner == old(ctx).owner
                &&& card_replaced(
                    old(ctx).agent,
                    final(ctx).agent,
                    encode_utf8(card_uri@),
                    card_hash,
                )
                &&& final(ctx).agent@.card_uri == encode_utf8(card_uri@)
                &&& old(ctx).agent.wf() ==> final(ctx).agent.wf()
                &&& event.creator == old(ctx).agent.creator
                &&& event.card_uri@ == preview_text(encode_utf8(card_uri@))
                &&& valid_utf8(preview_bytes(encode_utf8(card_uri@))) ==> event.card_uri@
                    == decode_utf8(preview_bytes(encode_utf8(card_uri@)))
                &&& event.card_hash == card_hash
            },
            Err(e) => set_card_error(*old(ctx), encode_utf8(card_uri@)) == Some(e) && *final(ctx)
                == *old(ctx),
        },
{
    if !(ctx.agent.owner == ctx.owner) {
        return Err(PlatformError::Unauthorized);
    }
    let bytes = card_uri.as_str().as_bytes();
    match check_card_uri(bytes) {
        Err(e) => {
            return Err(e);
        },
        Ok(_) => {},
    }
    ctx.agent.card_uri_len = bytes.len() as u8;
    write_fixed(&mut ctx.agent.card_uri, bytes);
    ctx.agent.card_hash = card_hash;
    proof {
        crate::codec::lemma_write_then_read(bytes@, MAX_URI as nat);
    }
    let preview = preview_str(bytes);
    Ok(CardSet { creator: ctx.agent.creator, card_uri: preview, card_hash })
}

/// The accounts of `create_agent`: the record to fill and who signed.
#[derive(Clone, Copy, Debug, PartialEq, Eq)]
pub struct CreateAgent {
    /// The record at the address derived from the creator. What it held is overwritten.
    pub agent: AgentRegistry,
    /// The signer. Only the creator may create the creator's agent.
    pub creator_signer: Pubkey,
    /// The bump of the record's address.
    pub bump: u8,
}

/// The bytes a vector holds, if there is a vector.
pub open spec fn opt_bytes(bytes: Option<Vec<u8>>) -> Option<Seq<u8>> {
    match bytes {
        Some(b) => Some(b@),
        None => None,
    }
}

/// Why a memory mode and pointer are refused at creation, or `None` where
/// they are in order. No mode means no memory. A mode without a pointer is
/// refused; so are the manifest mode, which cannot be had at creation, and any
/// unknown mode. In URL mode the pointer is text that starts with `https://`.
pub open spec fn creation_memory_error(mode: Option<u8>, ptr: Option<Seq<u8>>) -> Option<
    PlatformError,
> {
    match mode {
        None => None,
        Some(m) => match ptr {
            None => Some(PlatformError::InvalidMemoryFields),
            Some(p) => if p.len() == 0 || p.len() > MAX_URI {
                Some(PlatformError::InvalidLength)
            } else if m > 3 {
                Some(PlatformError::InvalidMemoryFields)
            } else if m == 3 && !valid_utf8(p) {
                Some(PlatformError::InvalidMemoryFields)
            } else if m == 3 && !is_https(p) {
                Some(PlatformError::InsecureUrl)
            } else {
                None
            },
        },
    }
}

/// Why `create_agent` refuses, or `None` where it goes through: the signer
/// is looked at first, then the memory, then the card.
pub open spec fn create_agent_error(
    ctx: CreateAgent,
    creator: Pubkey,
    uri: Seq<u8>,
    mode: Option<u8>,
    ptr: Option<Seq<u8>>,
) -> Option<PlatformError> {
    if ctx.creator_signer != creator {
        Some(PlatformError::Unauthorized)
    } else if creation_memory_error(mode, ptr) is Some {
        creation_memory_error(mode, ptr)
    } else {
        card_uri_error(uri)
    }
}

/// The pointer a new agent stores: the one given with a mode, else none.
pub open spec fn initial_ptr(mode: Option<u8>, ptr: Option<Seq<u8>>) -> Seq<u8> {
    if mode is Some && ptr is Some {
        ptr->0
    } else {
        Seq::<u8>::empty()
    }
}

/// The flags a new agent starts with: active, and staking unless it was declined.
pub open spec fn initial_flags(has_staking: Option<bool>) -> u32 {
    if has_staking == Some(false) {
        FLAG_ACTIVE
    } else {
        flags_with(FLAG_ACTIVE, FLAG_HAS_STAKING)
    }
}

/// `agent` is the record that `create_agent` makes of its arguments.
pub open spec fn is_new_agent(
    agent: AgentRegistry,
    creator: Pubkey,
    bump: u8,
    uri: Seq<u8>,
    card_hash: [u8; 32],
    has_staking: Option<bool>,
    mode: Option<u8>,
    ptr: Option<Seq<u8>>,
    hash: Option<[u8; 32]>,
) -> bool {
    &&& agent.version == 1
    &&& agent.creator == creator
    &&& agent.owner == creator
    &&& agent.memory_mode == (if mode is Some {
        mode->0
    } else {
        0
    })
    &&& agent.memory_ptr_len == initial_ptr(mode, ptr).len()
    &&& agent.memory_ptr@ == zero_padded(initial_ptr(mode, ptr), MAX_URI as nat)
    &&& agent.memory_hash@ == (if mode is Some && hash is Some {
        hash->0@
    } else {
        zero_hash()
    })
    &&& agent.card_uri_len == uri.len()
    &&& agent.card_uri@ == zero_padded(uri, MAX_URI as nat)
    &&& agent.card_hash == card_hash
    &&& agent.flags == initial_flags(has_staking)
    &&& agent.bump == bump
    &&& agent._padding@ == Seq::new(7, |i: int| 0u8)
}

/// Creates the agent of `creator`: owned by its creator, active, with the
/// card given, with staking unless `has_staking` is `Some(false)`, and with
/// the memory given, if any.
pub fn create_agent(
    ctx: &mut CreateAgent,
    creator: Pubkey,
    card_uri: String,
    card_hash: [u8; 32],
    has_staking: Option<bool>,
    memory_mode: Option<u8>,
    memory_ptr: Option<Vec<u8>>,
    memory_hash: Option<[u8; 32]>,
) -> (res: Result<AgentCreated, PlatformError>)
    ensures
        match res {
            Ok(event) => {
                &&& create_agent_error(
                    *old(ctx),
                    creator,
                    encode_utf8(card_uri@),
                    memory_mode,
                    opt_bytes(memory_ptr),
                ) is None
                &&& final(ctx).creator_signer == old(ctx).creator_signer
                &&& final(ctx).bump == old(ctx).bump
                &&& is_new_agent(
                    final(ctx).agent,
                    creator,
                    old(ctx).bump,
                    encode_utf8(card_uri@),
                    card_hash,
                    has_staking,
                    memory_mode,
                    opt_bytes(memory_ptr),
                    memory_hash,
                )
                &&& final(ctx).agent.wf()
                &&& final(ctx).agent@.card_uri == encode_utf8(card_uri@)
                &&& final(ctx).agent@.memory_ptr == initial_ptr(memory_mode, opt_bytes(memory_ptr))
                &&& final(ctx).agent@.active
                &&& !final(ctx).agent@.locked
                &&& final(ctx).agent@.has_staking == (has_staking != Some(false))
                &&& event == (AgentCreated { creator, owner: creator })
            },
            Err(e) => create_agent_error(
                *old(ctx),
                creator,
                encode_utf8(card_uri@),
                memory_mode,
                opt_bytes(memory_ptr),
            ) == Some(e) && *final(ctx) == *old(ctx),
        },
{
    if !(ctx.creator_signer == creator) {
        return Err(PlatformError::Unauthorized);
    }
    let mut agent = AgentRegistry {
        version: 1,
        creator,
        owner: creator,
        memory_mode: 0,
        memory_ptr_len: 0,
        memory_ptr: [0u8; 96],
        memory_hash: [0u8; 32],
        card_uri_len: 0,
        card_uri: [0u8; 96],
        card_hash,
        flags: FLAG_ACTIVE,
        bump: ctx.bump,
        _padding: [0u8; 7],
    };
    assert(agent.memory_hash@ =~= zero_hash());
    assert(agent._padding@ =~= Seq::new(7, |i: int| 0u8));
    assert(agent.memory_ptr@ =~= zero_padded(Seq::<u8>::empty(), MAX_URI as nat));
    match memory_mode {
        Some(mode) => {
            match &memory_ptr {
                Some(ptr) => {
                    if !(ptr.len() > 0 && ptr.len() <= MAX_URI) {
                        return Err(PlatformError::InvalidLength);
                    }
                    if mode > 3 {
                        return Err(PlatformError::InvalidMemoryFields);
                    }
                    if mode == 3 {
                        let url = match core::str::from_utf8(ptr.as_slice()) {
                            Ok(s) => s,
                            Err(_) => {
                                return Err(PlatformError::InvalidMemoryFields);
                            },
                        };
                        if !starts_with(url.as_bytes(), &HTTPS_SCHEME) {
                            return Err(PlatformError::InsecureUrl);
                        }
                    }
                    agent.memory_mode = mode;
                    agent.memory_ptr_len = ptr.len() as u8;
                    write_fixed(&mut agent.memory_ptr, ptr.as_slice());
                    match memory_hash {
                        Some(h) => {
                            agent.memory_hash = h;
                        },
                        None => {},
                    }
                },
                None => {
                    return Err(PlatformError::InvalidMemoryFields);
                },
            }
        },
        None => {},
    }
    let bytes = card_uri.as_str().as_bytes();
    match check_card_uri(bytes) {
        Err(e) => {
            return Err(e);
        },
        Ok(_) => {},
    }
    agent.card_uri_len = bytes.len() as u8;
    write_fixed(&mut agent.card_uri, bytes);
    match has_staking {
        Some(false) => {},
        _ => {
            agent.flags = with_flag(agent.flags, FLAG_HAS_STAKING);
        },
    }
    proof {
        crate::codec::lemma_write_then_read(bytes@, MAX_URI as nat);
        crate::codec::lemma_write_then_read(
            initial_ptr(memory_mode, opt_bytes(memory_ptr)),
            MAX_URI as nat,
        );
        lemma_initial_flags();
    }
    ctx.agent = agent;
    Ok(AgentCreated { creator, owner: creator })
}

/// `post` is `pre` with the lock set.
pub open spec fn lock_added(pre: AgentRegistry, post: AgentRegistry) -> bool {
    post == (AgentRegistry { flags: flags_with(pre.flags, FLAG_LOCKED), ..pre })
}

/// Freezes the memory of the agent for good, if the signer is the owner.
pub fn lock_memory(ctx: &mut UpdateAgent) -> (res: Result<MemoryLocked, PlatformError>)
    ensures
        match res {
            Ok(event) => {
                &&& old(ctx).authorized()
                &&& final(ctx).owner == old(ctx).owner
                &&& lock_added(old(ctx).agent, final(ctx).agent)
                &&& final(ctx).agent@ == (AgentView { locked: true, ..old(ctx).agent@ })
                &&& old(ctx).agent.wf() ==> final(ctx).agent.wf()
                &&& event == (MemoryLocked { creator: old(ctx).agent.creator })
            },
            Err(e) => e == PlatformError::Unauthorized && !old(ctx).authorized() && *final(ctx)
                == *old(ctx),
        },
{
    if !(ctx.agent.owner == ctx.owner) {
        return Err(PlatformError::Unauthorized);
    }
    proof {
        lemma_flags_disjoint();
        lemma_flag_added(ctx.agent.flags, FLAG_LOCKED, FLAG_ACTIVE);
        lemma_flag_added(ctx.agent.flags, FLAG_LOCKED, FLAG_HAS_STAKING);
    }
    ctx.agent.flags = with_flag(ctx.agent.flags, FLAG_LOCKED);
    Ok(MemoryLocked { creator: ctx.agent.creator })
}

/// The flags after the agent was switched on or off.
pub open spec fn flags_with_active(flags: u32, is_active: bool) -> u32 {
    if is_active {
        flags_with(flags, FLAG_ACTIVE)
    } else {
        flags_without(flags, FLAG_ACTIVE)
    }
}

/// `post` is `pre` switched on or off.
pub open spec fn active_replaced(pre: AgentRegistry, post: AgentRegistry, is_active: bool) -> bool {
    post == (AgentRegistry { flags: flags_with_active(pre.flags, is_active), ..pre })
}

/// Switches the agent on or off, if the signer is the owner.
pub fn set_active(ctx: &mut UpdateAgent, is_active: bool) -> (res: Result<
    AgentActiveSet,
    PlatformError,
>)
    ensures
        match res {
            Ok(event) => {
                &&& old(ctx).authorized()
                &&& final(ctx).owner == old(ctx).owner
                &&& active_replaced(old(ctx).agent, final(ctx).agent, is_active)
                &&& final(ctx).agent@ == (AgentView { active: is_active, ..old(ctx).agent@ })
                &&& old(ctx).agent.wf() ==> final(ctx).agent.wf()
                &&& event == (AgentActiveSet { creator: old(ctx).agent.creator, is_active })
            },
            Err(e) => e == PlatformError::Unauthorized && !old(ctx).authorized() && *final(ctx)
                == *old(ctx),
        },
{
    if !(ctx.agent.owner == ctx.owner) {
        return Err(PlatformError::Unauthorized);
    }
    proof {
        lemma_flags_disjoint();
        lemma_flag_added(ctx.agent.flags, FLAG_ACTIVE, FLAG_LOCKED);
        lemma_flag_added(ctx.agent.flags, FLAG_ACTIVE, FLAG_HAS_STAKING);
        lemma_flag_removed(ctx.agent.flags, FLAG_ACTIVE, FLAG_LOCKED);
        lemma_flag_removed(ctx.agent.flags, FLAG_ACTIVE, FLAG_HAS_STAKING);
    }
    if is_active {
        ctx.agent.flags = with_flag(ctx.agent.flags, FLAG_ACTIVE);
    } else {
        ctx.agent.flags = without_flag(ctx.agent.flags, FLAG_ACTIVE);
    }
    Ok(AgentActiveSet { creator: ctx.agent.creator, is_active })
}

/// The accounts of `close_agent`: the record, who signed, and who gets the
/// storage deposit of the record back.
#[derive(Clone, Copy, Debug, PartialEq, Eq)]
pub struct CloseAgent {
    pub agent: AgentRegistry,
    /// The signer. Only the owner of the agent may close it.
    pub owner: Pubkey,
    pub recipient: Pubkey,
}

/// Why `close_agent` refuses, or `None` where the agent may be closed: the
/// signer is its owner, it is switched off, and it has no staking.
pub open spec fn close_agent_error(ctx: CloseAgent) -> Option<PlatformError> {
    if ctx.agent.owner != ctx.owner {
        Some(PlatformError::Unauthorized)
    } else if ctx.agent.is_active() {
        Some(PlatformError::AgentActive)
    } else if ctx.agent.has_staking() {
        Some(PlatformError::StakingEnabled)
    } else {
        None
    }
}

/// What `close_agent` asks of its caller: to remove the record and hand its
/// storage deposit to `recipient`, and the event.
#[derive(Clone, Copy, Debug, PartialEq, Eq)]
pub struct Closing {
    pub recipient: Pubkey,
    pub event: AgentClosed,
}

/// Decides whether the agent may be closed. Where it may, the caller removes
/// the record and hands its storage deposit to the recipient named.
pub fn close_agent(ctx: &CloseAgent) -> (res: Result<Closing, PlatformError>)
    ensures
        match res {
            Ok(closing) => close_agent_error(*ctx) is None && closing == (Closing {
                recipient: ctx.recipient,
                event: AgentClosed { creator: ctx.agent.creator },
            }),
            Err(e) => close_agent_error(*ctx) == Some(e),
        },
{
    if !(ctx.agent.owner == ctx.owner) {
        return Err(PlatformError::Unauthorized);
    }
    if ctx.agent.is_active() {
        return Err(PlatformError::AgentActive);
    }
    if ctx.agent.has_staking() {
        return Err(PlatformError::StakingEnabled);
    }
    Ok(Closing { recipient: ctx.recipient, event: AgentClosed { creator: ctx.agent.creator } })
}

/// Why `transfer_owner` refuses, or `None` where it goes through.
pub open spec fn transfer_owner_error(ctx: UpdateAgent, new_owner: Pubkey) -> Option<
    PlatformError,
> {
    if !ctx.authorized() {
        Some(PlatformError::Unauthorized)
    } else if new_owner.is_default() {
        Some(PlatformError::InvalidOwner)
    } else {
        None
    }
}

/// `post` is `pre` in the hands of `new_owner`.
pub open spec fn owner_replaced(pre: AgentRegistry, post: AgentRegistry, new_owner: Pubkey) -> bool {
    post == (AgentRegistry { owner: new_owner, ..pre })
}

/// Hands the agent to `new_owner`, if the signer is the owner and
/// `new_owner` is not the all-zero key. The creator stays.
pub fn transfer_owner(ctx: &mut UpdateAgent, new_owner: Pubkey) -> (res: Result<
    OwnerTransferred,
    PlatformError,
>)
    ensures
        match res {
            Ok(event) => {
                &&& transfer_owner_error(*old(ctx), new_owner) is None
                &&& final(ctx).owner == old(ctx).owner
                &&& owner_replaced(old(ctx).agent, final(ctx).agent, new_owner)
                &&& final(ctx).agent@ == (AgentView { owner: new_owner, ..old(ctx).agent@ })
                &&& old(ctx).agent.wf() ==> final(ctx).agent.wf()
                &&& event == (OwnerTransferred {
                    creator: old(ctx).agent.creator,
                    old_owner: old(ctx).agent.owner,
                    new_owner,
                })
            },
            Err(e) => transfer_owner_error(*old(ctx), new_owner) == Some(e) && *final(ctx) == *old(
                ctx,
            ),
        },
{
    if !(ctx.agent.owner == ctx.owner) {
        return Err(PlatformError::Unauthorized);
    }
    if new_owner.is_null() {
        return Err(PlatformError::InvalidOwner);
    }
    let old_owner = ctx.agent.owner;
    ctx.agent.owner = new_owner;
    Ok(OwnerTransferred { creator: ctx.agent.creator, old_owner, new_owner })
}


} // verus!
