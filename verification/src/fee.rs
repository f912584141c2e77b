//! The fee schedule of a deployment and the withdrawal fee that decays with
//! the time staked.

use vstd::prelude::*;
use vstd::arithmetic::div_mod::lemma_div_is_ordered;
use vstd::arithmetic::mul::{lemma_mul_inequality, lemma_mul_is_commutative};
use crate::error::PlatformError;
use crate::pubkey::Pubkey;

verus! {

/// The program-wide fee schedule. There is one per deployment.
#[derive(Clone, Copy, Debug, PartialEq, Eq)]
pub struct ProgramState {
    /// The fee for a withdrawal right after the position was opened.
    pub fee_immediate_lamports: u64,
    /// The fee once the decay window has passed.
    pub fee_regular_lamports: u64,
    /// The cap on any fee.
    pub fee_max_lamports: u64,
    /// The length of the decay window.
    pub decay_duration_seconds: u32,
    /// Who receives the fees.
    pub treasury: Pubkey,
    pub bump: u8,
}

impl ProgramState {
    /// The bytes a stored record takes.
    pub const SPACE: usize = 8 + 8 + 8 + 4 + 32 + 1;

    /// A tenth of a SOL.
    pub const DEFAULT_IMMEDIATE_FEE: u64 = 100_000_000;

    /// A thousandth of a SOL.
    pub const DEFAULT_REGULAR_FEE: u64 = 1_000_000;

    /// A tenth of a SOL.
    pub const DEFAULT_MAX_FEE: u64 = 100_000_000;

    /// A day.
    pub const DEFAULT_DECAY_DURATION: u32 = 86_400;

    /// The withdrawal fee this schedule asks `elapsed` seconds after the
    /// position was opened.
    pub open spec fn unstake_fee(&self, elapsed: int) -> int {
        decay_fee(
            self.fee_immediate_lamports as int,
            self.fee_regular_lamports as int,
            self.fee_max_lamports as int,
            self.decay_duration_seconds as int,
            elapsed,
        )
    }
}

/// The smaller of two integers.
pub open spec fn min_of(a: int, b: int) -> int {
    if a <= b {
        a
    } else {
        b
    }
}

/// `a - b`, or zero where `b` is the larger.
pub open spec fn sub_or_zero(a: int, b: int) -> int {
    if a >= b {
        a - b
    } else {
        0
    }
}

/// The fee that decays linearly from `immediate` to `regular` over `duration`
/// seconds and is capped at `max`. It means something for `duration > 0` and
/// `elapsed >= 0`.
pub open spec fn decay_fee(immediate: int, regular: int, max: int, duration: int, elapsed: int) -> int {
    if elapsed >= duration {
        min_of(regular, max)
    } else {
        let reduction = sub_or_zero(immediate, regular) * elapsed / duration;
        min_of(sub_or_zero(immediate, reduction), max)
    }
}

/// Inside the window the reduction never exceeds the distance between the two fees.
pub proof fn lemma_reduction_bounded(diff: int, duration: int, elapsed: int)
    requires
        0 <= diff,
        0 <= elapsed < duration,
    ensures
        0 <= diff * elapsed / duration <= diff,
        diff * elapsed <= diff * duration,
{
    lemma_mul_inequality(elapsed, duration, diff);
    lemma_mul_is_commutative(diff, elapsed);
    lemma_mul_is_commutative(diff, duration);
    assert(0 <= diff * elapsed) by (nonlinear_arith)
        requires
            0 <= diff,
            0 <= elapsed,
    ;
    lemma_div_is_ordered(diff * elapsed, diff * duration, duration);
    lemma_div_is_ordered(0, diff * elapsed, duration);
    assert(diff * duration / duration == diff) by (nonlinear_arith)
        requires
            duration > 0,
    ;
    assert(0int / duration == 0) by (nonlinear_arith)
        requires
            duration > 0,
    ;
}

/// The withdrawal fee `elapsed_secs` seconds after the position was opened;
/// `InvalidFeeConfig` for a schedule whose window is zero seconds long.
pub fn calculate_unstake_fee(elapsed_secs: u64, state: &ProgramState) -> (res: Result<
    u64,
    PlatformError,
>)
    ensures
        state.decay_duration_seconds == 0 ==> res == Err::<u64, PlatformError>(
            PlatformError::InvalidFeeConfig,
        ),
        state.decay_duration_seconds > 0 ==> res == Ok::<u64, PlatformError>(
            state.unstake_fee(elapsed_secs as int) as u64,
        ) && 0 <= state.unstake_fee(elapsed_secs as int) <= state.fee_max_lamports,
{
    if state.decay_duration_seconds == 0 {
        return Err(PlatformError::InvalidFeeConfig);
    }
    if elapsed_secs >= state.decay_duration_seconds as u64 {
        let fee = if state.fee_regular_lamports <= state.fee_max_lamports {
            state.fee_regular_lamports
        } else {
            state.fee_max_lamports
        };
        return Ok(fee);
    }
    let immediate = state.fee_immediate_lamports as u128;
    let regular = state.fee_regular_lamports as u128;
    let duration = state.decay_duration_seconds as u128;
    let elapsed = elapsed_secs as u128;
    let diff = immediate.saturating_sub(regular);
    proof {
        lemma_reduction_bounded(diff as int, duration as int, elapsed as int);
        assert(diff * duration <= 0xffff_ffff_ffff_ffff * 0xffff_ffff) by (nonlinear_arith)
            requires
                0 <= diff <= 0xffff_ffff_ffff_ffff,
                0 <= duration <= 0xffff_ffff,
        ;
    }
    let reduction = diff * elapsed / duration;
    let fee = immediate.saturating_sub(reduction);
    let max = state.fee_max_lamports as u128;
    let capped = if fee <= max {
        fee
    } else {
        max
    };
    Ok(capped as u64)
}

/// With no time passed the fee is the immediate fee, capped.
pub proof fn lemma_fee_at_zero(state: ProgramState)
    requires
        state.decay_duration_seconds > 0,
    ensures
        state.unstake_fee(0) == min_of(
            state.fee_immediate_lamports as int,
            state.fee_max_lamports as int,
        ),
{
    let diff = sub_or_zero(state.fee_immediate_lamports as int, state.fee_regular_lamports as int);
    assert(diff * 0 == 0) by (nonlinear_arith);
    assert(0int / (state.decay_duration_seconds as int) == 0) by (nonlinear_arith)
        requires
            state.decay_duration_seconds > 0,
    ;
}

/// Once the decay window has passed the fee is the regular fee, capped.
pub proof fn lemma_fee_after_window(state: ProgramState, elapsed: int)
    requires
        state.decay_duration_seconds > 0,
        elapsed >= state.decay_duration_seconds,
    ensures
        state.unstake_fee(elapsed) == min_of(
            state.fee_regular_lamports as int,
            state.fee_max_lamports as int,
        ),
{
}

/// The fee is never negative and never above the cap.
pub proof fn lemma_fee_capped(state: ProgramState, elapsed: int)
    requires
        state.decay_duration_seconds > 0,
        0 <= elapsed,
    ensures
        0 <= state.unstake_fee(elapsed) <= state.fee_max_lamports,
{
    if elapsed < state.decay_duration_seconds {
        let diff = sub_or_zero(
            state.fee_immediate_lamports as int,
            state.fee_regular_lamports as int,
        );
        lemma_reduction_bounded(diff, state.decay_duration_seconds as int, elapsed);
    }
}

/// The fee does not grow with time. This holds of a schedule whose regular
/// fee, capped, is not above its immediate fee; of any other schedule it holds
/// as long as the two times lie on the same side of the end of the window.
pub proof fn lemma_fee_monotonic(state: ProgramState, earlier: int, later: int)
    requires
        state.decay_duration_seconds > 0,
        0 <= earlier <= later,
        state.fee_regular_lamports <= state.fee_immediate_lamports || state.fee_max_lamports
            <= state.fee_immediate_lamports || later < state.decay_duration_seconds
            || state.decay_duration_seconds <= earlier,
    ensures
        state.unstake_fee(later) <= state.unstake_fee(earlier),
{
    let immediate = state.fee_immediate_lamports as int;
    let regular = state.fee_regular_lamports as int;
    let duration = state.decay_duration_seconds as int;
    let diff = sub_or_zero(immediate, regular);
    if earlier < duration {
        lemma_reduction_bounded(diff, duration, earlier);
        if later < duration {
            lemma_reduction_bounded(diff, duration, later);
            lemma_mul_inequality(earlier, later, diff);
            lemma_mul_is_commutative(diff, earlier);
            lemma_mul_is_commutative(diff, later);
            lemma_div_is_ordered(diff * earlier, diff * later, duration);
        }
    }
}

/// Of a schedule whose regular fee and cap are both above its immediate fee
/// the fee steps up at the end of the window: these are the schedules and
/// times of which `lemma_fee_monotonic` does not speak.
pub proof fn lemma_fee_steps_up(state: ProgramState, earlier: int, later: int)
    requires
        state.decay_duration_seconds > 0,
        0 <= earlier < state.decay_duration_seconds <= later,
        state.fee_immediate_lamports < state.fee_regular_lamports,
        state.fee_immediate_lamports < state.fee_max_lamports,
    ensures
        state.unstake_fee(earlier) == state.fee_immediate_lamports,
        state.unstake_fee(later) > state.unstake_fee(earlier),
{
    lemma_reduction_bounded(0, state.decay_duration_seconds as int, earlier);
}

/// The accounts of `init_program_state`.
#[derive(Clone, Copy, Debug, PartialEq, Eq)]
pub struct InitProgramState {
    /// The record to fill. What it held is overwritten.
    pub program_state: ProgramState,
    /// The signer, who pays for the record and has no say afterwards.
    pub initializer: Pubkey,
    /// Who will receive the fees.
    pub treasury: Pubkey,
    pub bump: u8,
}

impl InitProgramState {
    /// The schedule every deployment starts with.
    pub open spec fn new_state(&self) -> ProgramState {
        ProgramState {
            fee_immediate_lamports: ProgramState::DEFAULT_IMMEDIATE_FEE,
            fee_regular_lamports: ProgramState::DEFAULT_REGULAR_FEE,
            fee_max_lamports: ProgramState::DEFAULT_MAX_FEE,
            decay_duration_seconds: ProgramState::DEFAULT_DECAY_DURATION,
            treasury: self.treasury,
            bump: self.bump,
        }
    }
}

/// Fills in the fee schedule of a deployment: the default fees, paid to `ctx.treasury`.
pub fn init_program_state(ctx: &mut InitProgramState) -> (res: Result<(), PlatformError>)
    ensures
        res is Ok,
        *final(ctx) == (InitProgramState { program_state: old(ctx).new_state(), ..*old(ctx) }),
{
    ctx.program_state.fee_immediate_lamports = ProgramState::DEFAULT_IMMEDIATE_FEE;
    ctx.program_state.fee_regular_lamports = ProgramState::DEFAULT_REGULAR_FEE;
    ctx.program_state.fee_max_lamports = ProgramState::DEFAULT_MAX_FEE;
    ctx.program_state.decay_duration_seconds = ProgramState::DEFAULT_DECAY_DURATION;
    ctx.program_state.treasury = ctx.treasury;
    ctx.program_state.bump = ctx.bump;
    Ok(())
}

} // verus!
