//! The rules of a registry of agents with staking.
//!
//! An agent has a creator, an owner, a card, a memory pointer and flags. An
//! agent with staking can have a pool, in which stakers hold positions; a
//! withdrawal costs a fee that decays with the time staked.
//!
//! Every operation takes the records it touches, who signed and its
//! arguments, and gives back the records as they are afterwards, the event to
//! publish and the transfers to carry out. It checks who signed. It reads no
//! clock and moves no tokens: the time is an argument, and transfers are
//! results that the caller carries out. An operation that is refused leaves
//! every record as it was.

pub mod agent;
pub mod agent_laws;
pub mod codec;
pub mod error;
pub mod events;
pub mod fee;
pub mod flags;
pub mod ledger;
pub mod memory;
pub mod pool;
pub mod pubkey;
pub mod seeds;
pub mod stake;
pub mod text;

pub use agent::{
    close_agent, create_agent, lock_memory, set_active, set_card, set_memory, transfer_owner,
    AgentRegistry, CloseAgent, Closing, CreateAgent, UpdateAgent,
};
pub use codec::{read_fixed, starts_with, write_fixed};
pub use error::PlatformError;
pub use events::{
    AgentActiveSet, AgentClosed, AgentCreated, CardSet, MemoryLocked, MemoryUpdated,
    MinStakeUpdated, OwnerTransferred, PoolCreated, Staked, Withdrawn,
};
pub use fee::{calculate_unstake_fee, init_program_state, InitProgramState, ProgramState};
pub use flags::{FLAG_ACTIVE, FLAG_HAS_STAKING, FLAG_LOCKED};
pub use memory::{cid_like, MemoryMode};
pub use pool::{
    create_staking_pool, update_min_stake, CreateStakingPool, PoolSetup, StakingPool,
    UpdateMinStake, VaultSetup,
};
pub use pubkey::Pubkey;
pub use stake::{
    init_stake, stake, withdraw_stake, Authority, Deposit, InitStake, LamportTransfer, Stake,
    StakeAccount, TokenTransfer, WithdrawStake, Withdrawal,
};
pub use text::preview_str;
