//! The refusals of the operations.

use vstd::prelude::*;

verus! {

/// Why an operation was refused. A refused operation changes nothing.
#[derive(Clone, Copy, Debug, PartialEq, Eq, Structural)]
pub enum PlatformError {
    /// The caller is not the owner, creator or staker that the operation asks for.
    Unauthorized,
    /// The new owner is the all-zero key.
    InvalidOwner,
    /// A card URI or memory pointer is empty or longer than its buffer.
    InvalidLength,
    /// The memory mode, pointer and hash do not fit together.
    InvalidMemoryFields,
    /// The memory fields were frozen by an earlier lock.
    MemoryLocked,
    /// The agent is still active and cannot be closed.
    AgentActive,
    /// The agent has staking enabled and cannot be closed.
    StakingEnabled,
    /// A URI does not start with an allowed scheme.
    InsecureUrl,
    /// A minimum stake of zero.
    InvalidMinStakeAmount,
    /// A fee schedule with a decay window of zero seconds.
    InvalidFeeConfig,
    /// A deposit of zero.
    InvalidStakeAmount,
    /// A withdrawal from an empty position.
    NoStake,
    /// The vault handed in is not the pool's vault.
    InvalidVault,
    /// A first deposit below the pool's minimum.
    BelowMinimumStake,
    /// The staker cannot pay the withdrawal fee and stay rent exempt.
    InsufficientSolForFee,
    /// The agent was created without staking.
    StakingNotEnabled,
}

} // verus!
