//! What holds of the agent operations taken together: the card gate, the
//! mode table, the permanence of a lock and the guard on closing.

use vstd::prelude::*;
use vstd::utf8::valid_utf8;
use crate::agent::{
    active_replaced,
    card_replaced,
    card_uri_error,
    close_agent_error,
    create_agent_error,
    is_new_agent,
    lock_added,
    memory_replaced,
    memory_table_accepts,
    owner_replaced,
    set_card_error,
    set_memory_error,
    transfer_owner_error,
    AgentRegistry,
    CloseAgent,
    CreateAgent,
    UpdateAgent,
};
use crate::codec::{is_encoding, lemma_write_then_read};
use crate::error::PlatformError;
use crate::flags::{
    lemma_flag_added,
    lemma_flag_removed,
    lemma_flags_disjoint,
    FLAG_ACTIVE,
    FLAG_LOCKED,
};
use crate::memory::{is_https, is_ipfs, MemoryMode, MAX_URI};
use crate::pubkey::Pubkey;

verus! {

/// A card URI passes exactly if it has between 1 and `MAX_URI` bytes and
/// starts with `https://` or `ipfs://`. One that does not pass is refused
/// by `set_card` and by `create_agent`, whoever signs and whatever else is given.
pub proof fn lemma_card_gate(
    update: UpdateAgent,
    create: CreateAgent,
    creator: Pubkey,
    uri: Seq<u8>,
    mode: Option<u8>,
    ptr: Option<Seq<u8>>,
)
    ensures
        card_uri_error(uri) is None <==> 0 < uri.len() <= MAX_URI && (is_https(uri) || is_ipfs(
            uri,
        )),
        card_uri_error(uri) is Some ==> set_card_error(update, uri) is Some,
        card_uri_error(uri) is Some ==> create_agent_error(create, creator, uri, mode, ptr) is Some,
{
}

/// A card that `set_card` stored reads back as it was written: the record
/// holds the URI under its length, zeros behind it, and the hash.
pub proof fn lemma_card_round_trip(
    pre: AgentRegistry,
    post: AgentRegistry,
    uri: Seq<u8>,
    hash: [u8; 32],
)
    requires
        card_uri_error(uri) is None,
        card_replaced(pre, post, uri, hash),
    ensures
        post@.card_uri == uri,
        post@.card_hash == hash@,
        is_encoding(post.card_uri@, post.card_uri_len as nat),
        forall|i: int| uri.len() <= i < MAX_URI ==> post.card_uri@[i] == 0,
{
    lemma_write_then_read(uri, MAX_URI as nat);
}

/// The card of a new agent reads back as it was given to `create_agent`.
pub proof fn lemma_new_card_round_trip(
    agent: AgentRegistry,
    creator: Pubkey,
    bump: u8,
    uri: Seq<u8>,
    card_hash: [u8; 32],
    has_staking: Option<bool>,
    mode: Option<u8>,
    ptr: Option<Seq<u8>>,
    hash: Option<[u8; 32]>,
)
    requires
        card_uri_error(uri) is None,
        is_new_agent(agent, creator, bump, uri, card_hash, has_staking, mode, ptr, hash),
    ensures
        agent@.card_uri == uri,
        agent@.card_hash == card_hash@,
        is_encoding(agent.card_uri@, agent.card_uri_len as nat),
        forall|i: int| uri.len() <= i < MAX_URI ==> agent.card_uri@[i] == 0,
{
    lemma_write_then_read(uri, MAX_URI as nat);
}

/// For the owner of an agent that is not locked, `set_memory` goes through
/// exactly on what the mode table accepts, and refuses all else as
/// `InvalidMemoryFields` or `InsecureUrl`. This is said of pointers that fit
/// the buffer, and not of a URL that the table accepts but that is not UTF-8.
pub proof fn lemma_memory_table(ctx: UpdateAgent, mode: u8, ptr: Seq<u8>, hash: Option<[u8; 32]>)
    requires
        ctx.authorized(),
        !ctx.agent.is_locked(),
        ptr.len() <= MAX_URI,
        mode == MemoryMode::Url.code() && memory_table_accepts(MemoryMode::Url, ptr, hash)
            ==> valid_utf8(ptr),
    ensures
        set_memory_error(ctx, mode, ptr, hash) is None <==> (MemoryMode::of_code(mode) matches Some(
            m,
        ) && memory_table_accepts(m, ptr, hash)),
        set_memory_error(ctx, mode, ptr, hash) matches Some(e) ==> e
            == PlatformError::InvalidMemoryFields || e == PlatformError::InsecureUrl,
{
}

/// On a locked agent the owner's `set_memory` fails with `MemoryLocked`,
/// whatever mode, pointer and hash are given.
pub proof fn lemma_locked_memory_refused(
    ctx: UpdateAgent,
    mode: u8,
    ptr: Seq<u8>,
    hash: Option<[u8; 32]>,
)
    requires
        ctx.authorized(),
        ctx.agent.is_locked(),
    ensures
        set_memory_error(ctx, mode, ptr, hash) == Some(PlatformError::MemoryLocked),
{
}

/// A request to change an agent.
pub enum AgentOp {
    SetCard { uri: Seq<u8>, card_hash: [u8; 32] },
    SetMemory { mode: u8, ptr: Seq<u8>, hash: Option<[u8; 32]> },
    LockMemory,
    SetActive { is_active: bool },
    TransferOwner { new_owner: Pubkey },
}

/// Why the request `op` is refused, or `None` where it goes through.
pub open spec fn op_error(ctx: UpdateAgent, op: AgentOp) -> Option<PlatformError> {
    match op {
        AgentOp::SetCard { uri, card_hash } => set_card_error(ctx, uri),
        AgentOp::SetMemory { mode, ptr, hash } => set_memory_error(ctx, mode, ptr, hash),
        AgentOp::TransferOwner { new_owner } => transfer_owner_error(ctx, new_owner),
        AgentOp::LockMemory | AgentOp::SetActive { .. } => if ctx.authorized() {
            None
        } else {
            Some(PlatformError::Unauthorized)
        },
    }
}

/// `post` is what the request `op` makes of `pre` where it goes through.
pub open spec fn op_applied(pre: AgentRegistry, post: AgentRegistry, op: AgentOp) -> bool {
    match op {
        AgentOp::SetCard { uri, card_hash } => card_replaced(pre, post, uri, card_hash),
        AgentOp::SetMemory { mode, ptr, hash } => memory_replaced(pre, post, mode, ptr, hash),
        AgentOp::LockMemory => lock_added(pre, post),
        AgentOp::SetActive { is_active } => active_replaced(pre, post, is_active),
        AgentOp::TransferOwner { new_owner } => owner_replaced(pre, post, new_owner),
    }
}

/// One request in the life of an agent: who signed, what was asked, and
/// the record afterwards.
pub struct AgentStep {
    pub signer: Pubkey,
    pub op: AgentOp,
    pub after: AgentRegistry,
}

/// `step` is what happens to `pre`: the request goes through and changes
/// the record as it says, or it is refused and the record stays.
pub open spec fn step_taken(pre: AgentRegistry, step: AgentStep) -> bool {
    if op_error(UpdateAgent { agent: pre, owner: step.signer }, step.op) is None {
        op_applied(pre, step.after, step.op)
    } else {
        step.after == pre
    }
}

/// `steps` is a life of the agent from `start` on, request after request.
pub open spec fn is_history(start: AgentRegistry, steps: Seq<AgentStep>) -> bool
    decreases steps.len(),
{
    steps.len() == 0 || (step_taken(start, steps[0]) && is_history(
        steps[0].after,
        steps.drop_first(),
    ))
}

/// The memory fields of two records are the same.
pub open spec fn same_memory(a: AgentRegistry, b: AgentRegistry) -> bool {
    &&& a.memory_mode == b.memory_mode
    &&& a.memory_ptr_len == b.memory_ptr_len
    &&& a.memory_ptr == b.memory_ptr
    &&& a.memory_hash == b.memory_hash
}

/// One request to a locked agent leaves it locked, with the memory it had.
pub proof fn lemma_lock_survives_step(pre: AgentRegistry, step: AgentStep)
    requires
        pre.is_locked(),
        step_taken(pre, step),
    ensures
        step.after.is_locked(),
        same_memory(pre, step.after),
{
    lemma_flags_disjoint();
    lemma_flag_added(pre.flags, FLAG_LOCKED, FLAG_ACTIVE);
    lemma_flag_added(pre.flags, FLAG_ACTIVE, FLAG_LOCKED);
    lemma_flag_removed(pre.flags, FLAG_ACTIVE, FLAG_LOCKED);
}

/// Once an agent is locked it stays locked, and its memory stays what it
/// was, through every request that follows, whoever signs it: so every later
/// `set_memory` of the owner fails with `MemoryLocked`.
pub proof fn lemma_lock_is_permanent(start: AgentRegistry, steps: Seq<AgentStep>, i: int)
    requires
        start.is_locked(),
        is_history(start, steps),
        0 <= i < steps.len(),
    ensures
        steps[i].after.is_locked(),
        same_memory(start, steps[i].after),
    decreases steps.len(),
{
    lemma_lock_survives_step(start, steps[0]);
    if i > 0 {
        lemma_lock_is_permanent(steps[0].after, steps.drop_first(), i - 1);
    }
}

/// The owner may close an agent exactly if it is switched off and has no
/// staking. An active agent is refused as `AgentActive`, an inactive one with
/// staking as `StakingEnabled`.
pub proof fn lemma_close_guard(ctx: CloseAgent)
    requires
        ctx.agent.owner == ctx.owner,
    ensures
        close_agent_error(ctx) is None <==> !ctx.agent@.active && !ctx.agent@.has_staking,
        ctx.agent@.active ==> close_agent_error(ctx) == Some(PlatformError::AgentActive),
        !ctx.agent@.active && ctx.agent@.has_staking ==> close_agent_error(ctx) == Some(
            PlatformError::StakingEnabled,
        ),
{
}

} // verus!
