//! Laws of staking: a first deposit meets the minimum of the pool, and the
//! total of a pool is the sum of its positions.

use vstd::prelude::*;
use crate::error::PlatformError;
use crate::pool::{CreateStakingPool, StakingPool};
use crate::stake::{InitStake, Stake, StakeAccount, WithdrawStake};

verus! {

/// A first deposit, or the first after a withdrawal, that is not zero but
/// below the minimum of the pool is refused as `BelowMinimumStake`, when the
/// staker signs and the vault is the pool's.
pub proof fn lemma_first_stake_below_minimum(ctx: Stake, amount: u64)
    requires
        ctx.stake_account.staker == ctx.staker,
        ctx.token_vault == ctx.staking_pool.token_vault,
        ctx.stake_account.staked_amount == 0,
        0 < amount < ctx.staking_pool.min_stake_amount,
    ensures
        ctx.error(amount) == Some(PlatformError::BelowMinimumStake),
{
}

/// A deposit into a position that holds something goes through whatever
/// the minimum of the pool is, when it is not zero, the staker signs and the
/// vault is the pool's.
pub proof fn lemma_top_up_accepted(ctx: Stake, amount: u64)
    requires
        ctx.stake_account.staker == ctx.staker,
        ctx.token_vault == ctx.staking_pool.token_vault,
        ctx.stake_account.staked_amount > 0,
        amount > 0,
    ensures
        ctx.error(amount) is None,
{
}

/// What the positions hold together.
pub open spec fn staked_sum(positions: Seq<StakeAccount>) -> int
    decreases positions.len(),
{
    if positions.len() == 0 {
        0
    } else {
        staked_sum(positions.drop_last()) + positions.last().staked_amount
    }
}

/// A pool with all its positions.
pub struct Ledger {
    pub pool: StakingPool,
    pub positions: Seq<StakeAccount>,
}

impl Ledger {
    /// The total of the pool is what its positions hold together.
    pub open spec fn balanced(&self) -> bool {
        self.pool.total_staked == staked_sum(self.positions)
    }
}

/// A request to a pool, with the accounts as they were handed in. The pool
/// and the position `position` of the ledger take the place of the two
/// records in them.
pub enum LedgerOp {
    Stake { position: int, deposit: Stake, amount: u64, now: i64 },
    Withdraw { position: int, withdrawal: WithdrawStake, now: i64, rent_exempt_minimum: u64 },
}

impl Ledger {
    /// The ledger after the request `op`: changed as `stake` or
    /// `withdraw_stake` changes pool and position where the request goes
    /// through, and as it was where the request is refused or names no position.
    pub open spec fn step(self, op: LedgerOp) -> Ledger {
        match op {
            LedgerOp::Stake { position, deposit, amount, now } => {
                if 0 <= position < self.positions.len() {
                    let ctx = Stake {
                        staking_pool: self.pool,
                        stake_account: self.positions[position],
                        ..deposit
                    };
                    if ctx.error(amount) is None {
                        Ledger {
                            pool: ctx.pool_after(amount),
                            positions: self.positions.update(
                                position,
                                ctx.position_after(amount, now),
                            ),
                        }
                    } else {
                        self
                    }
                } else {
                    self
                }
            },
            LedgerOp::Withdraw { position, withdrawal, now, rent_exempt_minimum } => {
                if 0 <= position < self.positions.len() {
                    let ctx = WithdrawStake {
                        staking_pool: self.pool,
                        stake_account: self.positions[position],
                        ..withdrawal
                    };
                    if ctx.error(now, rent_exempt_minimum) is None {
                        Ledger {
                            pool: ctx.pool_after(),
                            positions: self.positions.update(position, ctx.position_after(now)),
                        }
                    } else {
                        self
                    }
                } else {
                    self
                }
            },
        }
    }

    /// Whether the request `op` keeps the ledger within what a total can
    /// hold. The one request that does not is a deposit that goes through and
    /// takes the sum of the positions past `u64::MAX` while another position
    /// holds something: total and position then stop at `u64::MAX`, and the
    /// sum of the positions is more.
    pub open spec fn fits(self, op: LedgerOp) -> bool {
        match op {
            LedgerOp::Stake { position, deposit, amount, now } => {
                let ctx = Stake {
                    staking_pool: self.pool,
                    stake_account: self.positions[position],
                    ..deposit
                };
                !(0 <= position < self.positions.len() && ctx.error(amount) is None && staked_sum(
                    self.positions,
                ) + amount > u64::MAX && staked_sum(self.positions)
                    != self.positions[position].staked_amount)
            },
            LedgerOp::Withdraw { .. } => true,
        }
    }

    /// The ledger after the requests `ops`, one after the other.
    pub open spec fn run(self, ops: Seq<LedgerOp>) -> Ledger
        decreases ops.len(),
    {
        if ops.len() == 0 {
            self
        } else {
            self.step(ops[0]).run(ops.drop_first())
        }
    }

    /// Whether each of the requests `ops` fits the ledger that it meets.
    pub open spec fn all_fit(self, ops: Seq<LedgerOp>) -> bool
        decreases ops.len(),
    {
        ops.len() == 0 || (self.fits(ops[0]) && self.step(ops[0]).all_fit(ops.drop_first()))
    }
}

/// No position holds more than all of them together.
pub proof fn lemma_position_within_sum(positions: Seq<StakeAccount>, i: int)
    requires
        0 <= i < positions.len(),
    ensures
        positions[i].staked_amount <= staked_sum(positions),
        0 <= staked_sum(positions),
    decreases positions.len(),
{
    lemma_sum_not_negative(positions.drop_last());
    if i < positions.len() - 1 {
        lemma_position_within_sum(positions.drop_last(), i);
    }
}

/// A sum of what positions hold is not negative.
pub proof fn lemma_sum_not_negative(positions: Seq<StakeAccount>)
    ensures
        0 <= staked_sum(positions),
    decreases positions.len(),
{
    if positions.len() > 0 {
        lemma_sum_not_negative(positions.drop_last());
    }
}

/// Replacing one position changes the sum by what that position gains or loses.
pub proof fn lemma_sum_after_update(positions: Seq<StakeAccount>, i: int, position: StakeAccount)
    requires
        0 <= i < positions.len(),
    ensures
        staked_sum(positions.update(i, position)) == staked_sum(positions)
            - positions[i].staked_amount + position.staked_amount,
    decreases positions.len(),
{
    let updated = positions.update(i, position);
    if i == positions.len() - 1 {
        assert(updated.drop_last() =~= positions.drop_last());
    } else {
        assert(updated.drop_last() =~= positions.drop_last().update(i, position));
        lemma_sum_after_update(positions.drop_last(), i, position);
    }
}

/// A new pool, which has no positions yet, is balanced.
pub proof fn lemma_new_pool_balanced(ctx: CreateStakingPool, min_stake_amount: u64, now: i64)
    ensures
        (Ledger {
            pool: ctx.new_pool(min_stake_amount, now),
            positions: Seq::<StakeAccount>::empty(),
        }).balanced(),
{
}

/// Opening a position, which is empty, keeps a ledger balanced.
pub proof fn lemma_open_position_balanced(ledger: Ledger, ctx: InitStake, now: i64)
    requires
        ledger.balanced(),
    ensures
        (Ledger { positions: ledger.positions.push(ctx.new_position(now)), ..ledger }).balanced(),
{
    assert(ledger.positions.push(ctx.new_position(now)).drop_last() =~= ledger.positions);
}

/// One request that fits keeps a balanced ledger balanced.
pub proof fn lemma_step_balanced(ledger: Ledger, op: LedgerOp)
    requires
        ledger.balanced(),
        ledger.fits(op),
    ensures
        ledger.step(op).balanced(),
{
    match op {
        LedgerOp::Stake { position, deposit, amount, now } => {
            if 0 <= position < ledger.positions.len() {
                let ctx = Stake {
                    staking_pool: ledger.pool,
                    stake_account: ledger.positions[position],
                    ..deposit
                };
                lemma_position_within_sum(ledger.positions, position);
                lemma_sum_after_update(
                    ledger.positions,
                    position,
                    ctx.position_after(amount, now),
                );
            }
        },
        LedgerOp::Withdraw { position, withdrawal, now, rent_exempt_minimum } => {
            if 0 <= position < ledger.positions.len() {
                let ctx = WithdrawStake {
                    staking_pool: ledger.pool,
                    stake_account: ledger.positions[position],
                    ..withdrawal
                };
                lemma_position_within_sum(ledger.positions, position);
                lemma_sum_after_update(ledger.positions, position, ctx.position_after(now));
            }
        },
    }
}

/// One request that does not fit leaves a balanced ledger unbalanced: the
/// positions then hold more than the total says.
pub proof fn lemma_unfit_step_unbalanced(ledger: Ledger, op: LedgerOp)
    requires
        ledger.balanced(),
        !ledger.fits(op),
    ensures
        ledger.step(op).pool.total_staked < staked_sum(ledger.step(op).positions),
{
    match op {
        LedgerOp::Stake { position, deposit, amount, now } => {
            let ctx = Stake {
                staking_pool: ledger.pool,
                stake_account: ledger.positions[position],
                ..deposit
            };
            lemma_position_within_sum(ledger.positions, position);
            lemma_sum_after_update(ledger.positions, position, ctx.position_after(amount, now));
        },
        LedgerOp::Withdraw { .. } => {},
    }
}

/// After any sequence of deposits and withdrawals, each of which fits, the
/// total of the pool is what its positions hold together.
pub proof fn lemma_run_balanced(ledger: Ledger, ops: Seq<LedgerOp>)
    requires
        ledger.balanced(),
        ledger.all_fit(ops),
    ensures
        ledger.run(ops).balanced(),
    decreases ops.len(),
{
    if ops.len() > 0 {
        lemma_step_balanced(ledger, ops[0]);
        lemma_run_balanced(ledger.step(ops[0]), ops.drop_first());
    }
}

} // verus!
