//! The staking pool of an agent: its creation and its minimum first stake.

use vstd::prelude::*;
use crate::agent::AgentRegistry;
use crate::error::PlatformError;
use crate::events::{MinStakeUpdated, PoolCreated};
use crate::pubkey::Pubkey;
use crate::seeds::{derived_seeds, seeds_of, TOKEN_VAULT_TAG};

verus! {

/// The staking pool of one agent: its vault, its policy and its totals.
#[derive(Clone, Copy, Debug, PartialEq, Eq)]
pub struct StakingPool {
    /// The address of the agent's record.
    pub agent_pda: Pubkey,
    /// Who may change the policy: the agent's owner at the time the pool was made.
    pub owner: Pubkey,
    pub token_mint: Pubkey,
    /// The token account that holds what was staked.
    pub token_vault: Pubkey,
    /// The least a first deposit may be. Never zero.
    pub min_stake_amount: u64,
    /// What all positions of the pool hold together.
    pub total_staked: u64,
    /// How many positions ever received a first deposit.
    pub staker_count: u32,
    pub created_at: i64,
    pub flags: u8,
    pub bump: u8,
}

impl StakingPool {
    /// The bytes a stored record takes.
    pub const SPACE: usize = 32 + 32 + 32 + 32 + 8 + 8 + 4 + 8 + 1 + 1;

    /// The flags of a pool that is in use.
    pub const ACTIVE: u8 = 1;

    /// What holds of every pool that the operations below made.
    pub open spec fn wf(&self) -> bool {
        self.min_stake_amount > 0
    }
}

/// The bytes a token account takes.
pub const TOKEN_ACCOUNT_LEN: u64 = 165;

/// The accounts of `create_staking_pool`.
#[derive(Clone, Copy, Debug, PartialEq, Eq)]
pub struct CreateStakingPool {
    pub agent: AgentRegistry,
    /// The address of the agent's record.
    pub agent_key: Pubkey,
    /// The record to fill. What it held is overwritten.
    pub staking_pool: StakingPool,
    /// The address of the pool's record, derived from the agent's address.
    pub staking_pool_key: Pubkey,
    pub staking_pool_bump: u8,
    /// The address of the vault, derived from the pool's address.
    pub token_vault: Pubkey,
    pub token_vault_bump: u8,
    pub token_mint: Pubkey,
    /// The signer. Only the owner of the agent may create its pool.
    pub owner: Pubkey,
    pub token_program: Pubkey,
}

/// The token account to set up for a new pool. Only the pool can move what
/// the vault holds: the vault's authority is the pool's address, for which no
/// key exists.
#[derive(Clone, Copy, Debug, PartialEq, Eq)]
pub struct VaultSetup {
    /// Who pays for the account.
    pub payer: Pubkey,
    /// The address of the account, derived from `staking_pool` and `bump`.
    pub vault: Pubkey,
    pub bump: u8,
    pub staking_pool: Pubkey,
    /// The bytes to allot.
    pub space: u64,
    /// The program that owns the account.
    pub token_program: Pubkey,
    pub token_mint: Pubkey,
    /// Who may move the tokens.
    pub authority: Pubkey,
}

impl VaultSetup {
    /// The seeds of the vault's address, derived from the address of the pool.
    pub open spec fn spec_signer_seeds(&self) -> Seq<Seq<u8>> {
        derived_seeds(TOKEN_VAULT_TAG@, self.staking_pool, self.bump)
    }

    /// The seeds to show for the vault's address when the account is made.
    pub fn signer_seeds(&self) -> (seeds: Vec<Vec<u8>>)
        ensures
            seeds.deep_view() == self.spec_signer_seeds(),
    {
        seeds_of(TOKEN_VAULT_TAG.as_slice(), &self.staking_pool, self.bump)
    }
}

/// What `create_staking_pool` asks of its caller: the vault to set up, and the event.
#[derive(Clone, Copy, Debug, PartialEq, Eq)]
pub struct PoolSetup {
    pub vault: VaultSetup,
    pub event: PoolCreated,
}

impl CreateStakingPool {
    /// Why a pool with the minimum `min_stake_amount` is refused, or `None`
    /// where it is made: the agent has staking, the signer owns the agent, and
    /// the minimum is not zero.
    pub open spec fn error(&self, min_stake_amount: u64) -> Option<PlatformError> {
        if !self.agent.has_staking() {
            Some(PlatformError::StakingNotEnabled)
        } else if self.owner != self.agent.owner {
            Some(PlatformError::Unauthorized)
        } else if min_stake_amount == 0 {
            Some(PlatformError::InvalidMinStakeAmount)
        } else {
            None
        }
    }

    /// The pool that is made at the time `now`: empty, owned by the signer.
    pub open spec fn new_pool(&self, min_stake_amount: u64, now: i64) -> StakingPool {
        StakingPool {
            agent_pda: self.agent_key,
            owner: self.owner,
            token_mint: self.token_mint,
            token_vault: self.token_vault,
            min_stake_amount,
            total_staked: 0,
            staker_count: 0,
            created_at: now,
            flags: StakingPool::ACTIVE,
            bump: self.staking_pool_bump,
        }
    }

    /// The vault that goes with the pool.
    pub open spec fn vault_setup(&self) -> VaultSetup {
        VaultSetup {
            payer: self.owner,
            vault: self.token_vault,
            bump: self.token_vault_bump,
            staking_pool: self.staking_pool_key,
            space: TOKEN_ACCOUNT_LEN,
            token_program: self.token_program,
            token_mint: self.token_mint,
            authority: self.staking_pool_key,
        }
    }
}

/// Creates the staking pool of an agent at the time `now`, with no stakers
/// and nothing staked. The caller sets up the vault that the result names.
pub fn create_staking_pool(ctx: &mut CreateStakingPool, min_stake_amount: u64, now: i64) -> (res:
    Result<PoolSetup, PlatformError>)
    ensures
        match res {
            Ok(setup) => {
                &&& old(ctx).error(min_stake_amount) is None
                &&& *final(ctx) == (CreateStakingPool {
                    staking_pool: old(ctx).new_pool(min_stake_amount, now),
                    ..*old(ctx)
                })
                &&& final(ctx).staking_pool.wf()
                &&& setup.vault == old(ctx).vault_setup()
                &&& setup.event == (PoolCreated {
                    agent_pda: old(ctx).agent_key,
                    owner: old(ctx).owner,
                    min_stake_amount,
                })
            },
            Err(e) => old(ctx).error(min_stake_amount) == Some(e) && *final(ctx) == *old(ctx),
        },
{
    if !ctx.agent.has_staking() {
        return Err(PlatformError::StakingNotEnabled);
    }
    if !(ctx.owner == ctx.agent.owner) {
        return Err(PlatformError::Unauthorized);
    }
    if min_stake_amount == 0 {
        return Err(PlatformError::InvalidMinStakeAmount);
    }
    let vault = VaultSetup {
        payer: ctx.owner,
        vault: ctx.token_vault,
        bump: ctx.token_vault_bump,
        staking_pool: ctx.staking_pool_key,
        space: TOKEN_ACCOUNT_LEN,
        token_program: ctx.token_program,
        token_mint: ctx.token_mint,
        authority: ctx.staking_pool_key,
    };
    ctx.staking_pool = StakingPool {
        agent_pda: ctx.agent_key,
        owner: ctx.owner,
        token_mint: ctx.token_mint,
        token_vault: ctx.token_vault,
        min_stake_amount,
        total_staked: 0,
        staker_count: 0,
        created_at: now,
        flags: StakingPool::ACTIVE,
        bump: ctx.staking_pool_bump,
    };
    let event = PoolCreated {
        agent_pda: ctx.staking_pool.agent_pda,
        owner: ctx.staking_pool.owner,
        min_stake_amount,
    };
    Ok(PoolSetup { vault, event })
}

/// The accounts of `update_min_stake`: the pool and who signed.
#[derive(Clone, Copy, Debug, PartialEq, Eq)]
pub struct UpdateMinStake {
    pub staking_pool: StakingPool,
    /// The signer. Only the owner of the pool may change its policy.
    pub owner: Pubkey,
}

impl UpdateMinStake {
    /// Why the new minimum is refused, or `None` where it is taken: it is
    /// not zero, and the signer owns the pool.
    pub open spec fn error(&self, new_min_stake_amount: u64) -> Option<PlatformError> {
        if new_min_stake_amount == 0 {
            Some(PlatformError::InvalidMinStakeAmount)
        } else if self.staking_pool.owner != self.owner {
            Some(PlatformError::Unauthorized)
        } else {
            None
        }
    }
}

/// Replaces the minimum first stake of the pool. The event holds the old
/// and the new minimum.
pub fn update_min_stake(ctx: &mut UpdateMinStake, new_min_stake_amount: u64) -> (res: Result<
    MinStakeUpdated,
    PlatformError,
>)
    ensures
        match res {
            Ok(event) => {
                &&& old(ctx).error(new_min_stake_amount) is None
                &&& *final(ctx) == (UpdateMinStake {
                    staking_pool: StakingPool {
                        min_stake_amount: new_min_stake_amount,
                        ..old(ctx).staking_pool
                    },
                    ..*old(ctx)
                })
                &&& final(ctx).staking_pool.wf()
                &&& event == (MinStakeUpdated {
                    agent_pda: old(ctx).staking_pool.agent_pda,
                    old_amount: old(ctx).staking_pool.min_stake_amount,
                    new_amount: new_min_stake_amount,
                })
            },
            Err(e) => old(ctx).error(new_min_stake_amount) == Some(e) && *final(ctx) == *old(ctx),
        },
{
    if new_min_stake_amount == 0 {
        return Err(PlatformError::InvalidMinStakeAmount);
    }
    if !(ctx.staking_pool.owner == ctx.owner) {
        return Err(PlatformError::Unauthorized);
    }
    let old_amount = ctx.staking_pool.min_stake_amount;
    ctx.staking_pool.min_stake_amount = new_min_stake_amount;
    Ok(
        MinStakeUpdated {
            agent_pda: ctx.staking_pool.agent_pda,
            old_amount,
            new_amount: new_min_stake_amount,
        },
    )
}

} // verus!
