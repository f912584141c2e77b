//! The events that the operations hand back for publication.

use vstd::prelude::*;
use crate::pubkey::Pubkey;

verus! {

/// An agent was created.
#[derive(Clone, Copy, Debug, PartialEq, Eq)]
pub struct AgentCreated {
    pub creator: Pubkey,
    pub owner: Pubkey,
}

/// The card of an agent was replaced. `card_uri` is a preview, not the whole URI.
#[derive(Debug, PartialEq, Eq)]
pub struct CardSet {
    pub creator: Pubkey,
    pub card_uri: String,
    pub card_hash: [u8; 32],
}

/// The memory of an agent was replaced. `ptr_preview` is a preview, not the whole pointer.
#[derive(Debug, PartialEq, Eq)]
pub struct MemoryUpdated {
    pub creator: Pubkey,
    pub mode: u8,
    pub ptr_preview: String,
    pub hash: [u8; 32],
}

/// The memory of an agent was frozen.
#[derive(Clone, Copy, Debug, PartialEq, Eq)]
pub struct MemoryLocked {
    pub creator: Pubkey,
}

/// An agent was switched on or off.
#[derive(Clone, Copy, Debug, PartialEq, Eq)]
pub struct AgentActiveSet {
    pub creator: Pubkey,
    pub is_active: bool,
}

/// An agent was closed.
#[derive(Clone, Copy, Debug, PartialEq, Eq)]
pub struct AgentClosed {
    pub creator: Pubkey,
}

/// An agent changed hands.
#[derive(Clone, Copy, Debug, PartialEq, Eq)]
pub struct OwnerTransferred {
    pub creator: Pubkey,
    pub old_owner: Pubkey,
    pub new_owner: Pubkey,
}

/// A staking pool was created.
#[derive(Clone, Copy, Debug, PartialEq, Eq)]
pub struct PoolCreated {
    pub agent_pda: Pubkey,
    pub owner: Pubkey,
    pub min_stake_amount: u64,
}

/// The minimum first stake of a pool changed.
#[derive(Clone, Copy, Debug, PartialEq, Eq)]
pub struct MinStakeUpdated {
    pub agent_pda: Pubkey,
    pub old_amount: u64,
    pub new_amount: u64,
}

/// A deposit was made. `total` is what the position holds after it.
#[derive(Clone, Copy, Debug, PartialEq, Eq)]
pub struct Staked {
    pub staker: Pubkey,
    pub agent_pda: Pubkey,
    pub amount: u64,
    pub total: u64,
}

/// A position was withdrawn in full, for the fee given.
#[derive(Clone, Copy, Debug, PartialEq, Eq)]
pub struct Withdrawn {
    pub staker: Pubkey,
    pub agent_pda: Pubkey,
    pub amount: u64,
    pub fee: u64,
}

} // verus!
