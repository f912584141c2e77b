//! Stake positions: opening one, depositing into it and withdrawing it.

use vstd::prelude::*;
use crate::error::PlatformError;
use crate::events::{Staked, Withdrawn};
use crate::fee::{calculate_unstake_fee, ProgramState};
use crate::pool::StakingPool;
use crate::pubkey::Pubkey;
use crate::seeds::{derived_seeds, seeds_of, STAKING_POOL_TAG};

verus! {

/// The position of one staker in the pool of one agent. It stays when it is
/// withdrawn: an empty position is one that was withdrawn or never filled.
#[derive(Clone, Copy, Debug, PartialEq, Eq)]
pub struct StakeAccount {
    pub staker: Pubkey,
    /// The address of the agent's record.
    pub agent_pda: Pubkey,
    pub staked_amount: u64,
    /// When the position was opened. The fee decays from this time on, and
    /// nothing sets it again.
    pub staked_at: i64,
    pub last_updated_at: i64,
    pub bump: u8,
}

impl StakeAccount {
    /// The bytes a stored record takes.
    pub const SPACE: usize = 32 + 32 + 8 + 8 + 8 + 1;
}

/// Who stands behind a transfer of tokens.
#[derive(Clone, Copy, Debug, PartialEq, Eq)]
pub enum Authority {
    /// The holder of a key, who signed the request.
    Signer { key: Pubkey },
    /// The staking pool of the agent at `agent_pda`. No key exists for a
    /// pool: the address derived from the agent's address and `bump` stands for it.
    Pool { agent_pda: Pubkey, bump: u8 },
}

impl Authority {
    /// The seeds that are shown for the authority: those of the pool's
    /// address for a pool, none for a signer, whose signature is there already.
    pub open spec fn spec_signer_seeds(&self) -> Seq<Seq<u8>> {
        match *self {
            Authority::Signer { .. } => Seq::<Seq<u8>>::empty(),
            Authority::Pool { agent_pda, bump } => derived_seeds(
                STAKING_POOL_TAG@,
                agent_pda,
                bump,
            ),
        }
    }

    /// The seeds to show for the authority when the transfer is carried out.
    pub fn signer_seeds(&self) -> (seeds: Vec<Vec<u8>>)
        ensures
            seeds.deep_view() == self.spec_signer_seeds(),
    {
        match self {
            Authority::Signer { .. } => {
                let seeds: Vec<Vec<u8>> = Vec::new();
                assert(seeds.deep_view() =~~= Seq::<Seq<u8>>::empty());
                seeds
            },
            Authority::Pool { agent_pda, bump } => seeds_of(
                STAKING_POOL_TAG.as_slice(),
                agent_pda,
                *bump,
            ),
        }
    }
}

/// A transfer of staked tokens that the caller has to carry out.
#[derive(Clone, Copy, Debug, PartialEq, Eq)]
pub struct TokenTransfer {
    pub from: Pubkey,
    pub to: Pubkey,
    pub authority: Authority,
    pub amount: u64,
}

/// A transfer of lamports that the caller has to carry out.
#[derive(Clone, Copy, Debug, PartialEq, Eq)]
pub struct LamportTransfer {
    pub from: Pubkey,
    pub to: Pubkey,
    pub lamports: u64,
}

/// The accounts of `init_stake`.
#[derive(Clone, Copy, Debug, PartialEq, Eq)]
pub struct InitStake {
    pub staking_pool: StakingPool,
    /// The record to fill. What it held is overwritten.
    pub stake_account: StakeAccount,
    pub stake_account_bump: u8,
    /// The signer, whose position it will be.
    pub staker: Pubkey,
}

impl InitStake {
    /// The position that is opened at the time `now`: empty.
    pub open spec fn new_position(&self, now: i64) -> StakeAccount {
        StakeAccount {
            staker: self.staker,
            agent_pda: self.staking_pool.agent_pda,
            staked_amount: 0,
            staked_at: now,
            last_updated_at: now,
            bump: self.stake_account_bump,
        }
    }
}

/// Opens the empty position of the signer in the pool, at the time `now`.
pub fn init_stake(ctx: &mut InitStake, now: i64) -> (res: Result<(), PlatformError>)
    ensures
        res is Ok,
        *final(ctx) == (InitStake { stake_account: old(ctx).new_position(now), ..*old(ctx) }),
{
    ctx.stake_account = StakeAccount {
        staker: ctx.staker,
        agent_pda: ctx.staking_pool.agent_pda,
        staked_amount: 0,
        staked_at: now,
        last_updated_at: now,
        bump: ctx.stake_account_bump,
    };
    Ok(())
}

/// The accounts of `stake`.
#[derive(Clone, Copy, Debug, PartialEq, Eq)]
pub struct Stake {
    pub staking_pool: StakingPool,
    pub stake_account: StakeAccount,
    /// The token account to pay into. It has to be the vault of the pool.
    pub token_vault: Pubkey,
    /// The token account to pay from.
    pub staker_token_account: Pubkey,
    /// The signer. Only the staker of a position may add to it.
    pub staker: Pubkey,
}

/// What `stake` asks of its caller: the transfer into the vault, and the event.
#[derive(Clone, Copy, Debug, PartialEq, Eq)]
pub struct Deposit {
    pub transfer: TokenTransfer,
    pub event: Staked,
}

impl Stake {
    /// Whether this would be the first deposit into the position, or the
    /// first after a withdrawal.
    pub open spec fn is_first(&self) -> bool {
        self.stake_account.staked_amount == 0
    }

    /// Why a deposit of `amount` is refused, or `None` where it is taken.
    /// Signer and vault are looked at first, then the amount, which is not
    /// zero and, for a first deposit, not below the minimum of the pool.
    pub open spec fn error(&self, amount: u64) -> Option<PlatformError> {
        if self.stake_account.staker != self.staker {
            Some(PlatformError::Unauthorized)
        } else if self.token_vault != self.staking_pool.token_vault {
            Some(PlatformError::InvalidVault)
        } else if amount == 0 {
            Some(PlatformError::InvalidStakeAmount)
        } else if self.is_first() && amount < self.staking_pool.min_stake_amount {
            Some(PlatformError::BelowMinimumStake)
        } else {
            None
        }
    }

    /// The position after a deposit of `amount` at the time `now`.
    pub open spec fn position_after(&self, amount: u64, now: i64) -> StakeAccount {
        StakeAccount {
            staked_amount: self.stake_account.staked_amount.saturating_add(amount),
            last_updated_at: now,
            ..self.stake_account
        }
    }

    /// The pool after a deposit of `amount`: a first deposit counts a staker.
    pub open spec fn pool_after(&self, amount: u64) -> StakingPool {
        StakingPool {
            total_staked: self.staking_pool.total_staked.saturating_add(amount),
            staker_count: if self.is_first() {
                self.staking_pool.staker_count.saturating_add(1)
            } else {
                self.staking_pool.staker_count
            },
            ..self.staking_pool
        }
    }

    /// The transfer that goes with a deposit of `amount`.
    pub open spec fn transfer(&self, amount: u64) -> TokenTransfer {
        TokenTransfer {
            from: self.staker_token_account,
            to: self.token_vault,
            authority: Authority::Signer { key: self.staker },
            amount,
        }
    }
}

/// Adds `amount` to the position and to the total of the pool, at the time
/// `now`. The caller moves the tokens as the result says; if that fails, the
/// deposit did not happen.
pub fn stake(ctx: &mut Stake, amount: u64, now: i64) -> (res: Result<Deposit, PlatformError>)
    ensures
        match res {
            Ok(deposit) => {
                &&& old(ctx).error(amount) is None
                &&& *final(ctx) == (Stake {
                    staking_pool: old(ctx).pool_after(amount),
                    stake_account: old(ctx).position_after(amount, now),
                    ..*old(ctx)
                })
                &&& old(ctx).staking_pool.wf() ==> final(ctx).staking_pool.wf()
                &&& deposit.transfer == old(ctx).transfer(amount)
                &&& deposit.event == (Staked {
                    staker: old(ctx).stake_account.staker,
                    agent_pda: old(ctx).staking_pool.agent_pda,
                    amount,
                    total: old(ctx).position_after(amount, now).staked_amount,
                })
            },
            Err(e) => old(ctx).error(amount) == Some(e) && *final(ctx) == *old(ctx),
        },
{
    if !(ctx.stake_account.staker == ctx.staker) {
        return Err(PlatformError::Unauthorized);
    }
    if !(ctx.token_vault == ctx.staking_pool.token_vault) {
        return Err(PlatformError::InvalidVault);
    }
    if amount == 0 {
        return Err(PlatformError::InvalidStakeAmount);
    }
    if ctx.stake_account.staked_amount == 0 {
        if amount < ctx.staking_pool.min_stake_amount {
            return Err(PlatformError::BelowMinimumStake);
        }
        ctx.staking_pool.staker_count = ctx.staking_pool.staker_count.saturating_add(1);
    }
    let transfer = TokenTransfer {
        from: ctx.staker_token_account,
        to: ctx.token_vault,
        authority: Authority::Signer { key: ctx.staker },
        amount,
    };
    ctx.stake_account.staked_amount = ctx.stake_account.staked_amount.saturating_add(amount);
    ctx.stake_account.last_updated_at = now;
    ctx.staking_pool.total_staked = ctx.staking_pool.total_staked.saturating_add(amount);
    let event = Staked {
        staker: ctx.stake_account.staker,
        agent_pda: ctx.staking_pool.agent_pda,
        amount,
        total: ctx.stake_account.staked_amount,
    };
    Ok(Deposit { transfer, event })
}

/// The accounts of `withdraw_stake`.
#[derive(Clone, Copy, Debug, PartialEq, Eq)]
pub struct WithdrawStake {
    pub program_state: ProgramState,
    pub staking_pool: StakingPool,
    pub stake_account: StakeAccount,
    /// The token account to pay from. It has to be the vault of the pool.
    pub token_vault: Pubkey,
    /// The token account to pay into.
    pub staker_token_account: Pubkey,
    /// The signer. Only the staker of a position may withdraw it.
    pub staker: Pubkey,
    /// What the signer holds in lamports, from which the fee is paid.
    pub staker_lamports: u64,
}

/// What `withdraw_stake` asks of its caller: the fee to pay, if there is
/// one, the transfer out of the vault, and the event.
#[derive(Clone, Copy, Debug, PartialEq, Eq)]
pub struct Withdrawal {
    pub fee: Option<LamportTransfer>,
    pub payout: TokenTransfer,
    pub event: Withdrawn,
}

/// The seconds from `staked_at` to `now`; zero where `now` is the earlier.
pub open spec fn elapsed_since(staked_at: i64, now: i64) -> int {
    if now > staked_at {
        now - staked_at
    } else {
        0
    }
}

/// The seconds from `staked_at` to `now`; zero where `now` is the earlier.
pub fn elapsed_secs(staked_at: i64, now: i64) -> (elapsed: u64)
    ensures
        elapsed == elapsed_since(staked_at, now),
{
    if now > staked_at {
        (now as i128 - staked_at as i128) as u64
    } else {
        0
    }
}

impl WithdrawStake {
    /// The fee for a withdrawal at the time `now`.
    pub open spec fn fee(&self, now: i64) -> int {
        self.program_state.unstake_fee(elapsed_since(self.stake_account.staked_at, now))
    }

    /// Why a withdrawal at the time `now` is refused, or `None` where it
    /// goes through. Signer and vault are looked at first; then there has to
    /// be something staked, the fee schedule has to be in order, and, where a
    /// fee is due, the signer has to hold the fee on top of `rent_exempt_minimum`.
    pub open spec fn error(&self, now: i64, rent_exempt_minimum: u64) -> Option<PlatformError> {
        if self.stake_account.staker != self.staker {
            Some(PlatformError::Unauthorized)
        } else if self.token_vault != self.staking_pool.token_vault {
            Some(PlatformError::InvalidVault)
        } else if self.stake_account.staked_amount == 0 {
            Some(PlatformError::NoStake)
        } else if self.program_state.decay_duration_seconds == 0 {
            Some(PlatformError::InvalidFeeConfig)
        } else if self.fee(now) > 0 && self.staker_lamports < self.fee(now) + rent_exempt_minimum {
            Some(PlatformError::InsufficientSolForFee)
        } else {
            None
        }
    }

    /// The position after the withdrawal at the time `now`: empty, opened when it was.
    pub open spec fn position_after(&self, now: i64) -> StakeAccount {
        StakeAccount { staked_amount: 0, last_updated_at: now, ..self.stake_account }
    }

    /// The pool after the withdrawal: the total is less, the count of stakers is not.
    pub open spec fn pool_after(&self) -> StakingPool {
        StakingPool {
            total_staked: self.staking_pool.total_staked.saturating_sub(
                self.stake_account.staked_amount,
            ),
            ..self.staking_pool
        }
    }

    /// The fee to pay to the treasury at the time `now`, if one is due.
    pub open spec fn fee_transfer(&self, now: i64) -> Option<LamportTransfer> {
        if self.fee(now) > 0 {
            Some(
                LamportTransfer {
                    from: self.staker,
                    to: self.program_state.treasury,
                    lamports: self.fee(now) as u64,
                },
            )
        } else {
            None
        }
    }

    /// The transfer of all that is staked, out of the vault, on the pool's authority.
    pub open spec fn payout(&self) -> TokenTransfer {
        TokenTransfer {
            from: self.token_vault,
            to: self.staker_token_account,
            authority: Authority::Pool {
                agent_pda: self.staking_pool.agent_pda,
                bump: self.staking_pool.bump,
            },
            amount: self.stake_account.staked_amount,
        }
    }
}

/// Withdraws the whole position at the time `now`, for the fee that the
/// schedule asks at that time. `rent_exempt_minimum` is what the signer has to
/// keep after the fee. The caller pays the fee and moves the tokens as the
/// result says; if either fails, the withdrawal did not happen.
pub fn withdraw_stake(ctx: &mut WithdrawStake, now: i64, rent_exempt_minimum: u64) -> (res: Result<
    Withdrawal,
    PlatformError,
>)
    ensures
        match res {
            Ok(withdrawal) => {
                &&& old(ctx).error(now, rent_exempt_minimum) is None
                &&& *final(ctx) == (WithdrawStake {
                    staking_pool: old(ctx).pool_after(),
                    stake_account: old(ctx).position_after(now),
                    ..*old(ctx)
                })
                &&& old(ctx).staking_pool.wf() ==> final(ctx).staking_pool.wf()
                &&& withdrawal.fee == old(ctx).fee_transfer(now)
                &&& withdrawal.payout == old(ctx).payout()
                &&& withdrawal.event == (Withdrawn {
                    staker: old(ctx).stake_account.staker,
                    agent_pda: old(ctx).staking_pool.agent_pda,
                    amount: old(ctx).stake_account.staked_amount,
                    fee: old(ctx).fee(now) as u64,
                })
            },
            Err(e) => old(ctx).error(now, rent_exempt_minimum) == Some(e) && *final(ctx) == *old(
                ctx,
            ),
        },
{
    if !(ctx.stake_account.staker == ctx.staker) {
        return Err(PlatformError::Unauthorized);
    }
    if !(ctx.token_vault == ctx.staking_pool.token_vault) {
        return Err(PlatformError::InvalidVault);
    }
    if ctx.stake_account.staked_amount == 0 {
        return Err(PlatformError::NoStake);
    }
    let elapsed = elapsed_secs(ctx.stake_account.staked_at, now);
    let fee = match calculate_unstake_fee(elapsed, &ctx.program_state) {
        Ok(fee) => fee,
        Err(e) => {
            return Err(e);
        },
    };
    let mut fee_transfer: Option<LamportTransfer> = None;
    if fee > 0 {
        if (ctx.staker_lamports as u128) < fee as u128 + rent_exempt_minimum as u128 {
            return Err(PlatformError::InsufficientSolForFee);
        }
        fee_transfer =
        Some(LamportTransfer { from: ctx.staker, to: ctx.program_state.treasury, lamports: fee });
    }
    let amount = ctx.stake_account.staked_amount;
    let payout = TokenTransfer {
        from: ctx.token_vault,
        to: ctx.staker_token_account,
        authority: Authority::Pool {
            agent_pda: ctx.staking_pool.agent_pda,
            bump: ctx.staking_pool.bump,
        },
        amount,
    };
    ctx.stake_account.staked_amount = 0;
    ctx.stake_account.last_updated_at = now;
    ctx.staking_pool.total_staked = ctx.staking_pool.total_staked.saturating_sub(amount);
    let event = Withdrawn {
        staker: ctx.stake_account.staker,
        agent_pda: ctx.staking_pool.agent_pda,
        amount,
        fee,
    };
    Ok(Withdrawal { fee: fee_transfer, payout, event })
}

} // verus!
