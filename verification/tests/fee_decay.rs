use agent_platform::{
    calculate_unstake_fee, init_program_state, InitProgramState, PlatformError, ProgramState,
    Pubkey,
};

fn key(b: u8) -> Pubkey {
    Pubkey::new_from_array([b; 32])
}

fn schedule(immediate: u64, regular: u64, max: u64, duration: u32) -> ProgramState {
    ProgramState {
        fee_immediate_lamports: immediate,
        fee_regular_lamports: regular,
        fee_max_lamports: max,
        decay_duration_seconds: duration,
        treasury: key(9),
        bump: 255,
    }
}

fn defaults() -> ProgramState {
    schedule(100_000_000, 1_000_000, 100_000_000, 86_400)
}

#[test]
fn fee_at_zero_is_the_immediate_fee() {
    assert_eq!(calculate_unstake_fee(0, &defaults()), Ok(100_000_000));
}

#[test]
fn fee_at_zero_is_capped() {
    let state = schedule(200, 50, 100, 100);
    assert_eq!(calculate_unstake_fee(0, &state), Ok(100));
}

#[test]
fn fee_halfway_is_halfway() {
    assert_eq!(calculate_unstake_fee(43_200, &defaults()), Ok(50_500_000));
}

#[test]
fn fee_reduction_rounds_down() {
    // 99_000_000 * 1 / 86_400 is 1145 and a fraction.
    assert_eq!(calculate_unstake_fee(1, &defaults()), Ok(99_998_855));
    assert_eq!(calculate_unstake_fee(86_399, &defaults()), Ok(1_001_146));
}

#[test]
fn fee_at_the_end_of_the_window_is_the_regular_fee() {
    assert_eq!(calculate_unstake_fee(86_400, &defaults()), Ok(1_000_000));
    assert_eq!(calculate_unstake_fee(86_401, &defaults()), Ok(1_000_000));
    assert_eq!(calculate_unstake_fee(u64::MAX, &defaults()), Ok(1_000_000));
}

#[test]
fn fee_after_the_window_is_capped() {
    let state = schedule(100, 50, 20, 10);
    assert_eq!(calculate_unstake_fee(10, &state), Ok(20));
    assert_eq!(calculate_unstake_fee(0, &state), Ok(20));
    assert_eq!(calculate_unstake_fee(5, &state), Ok(20));
}

#[test]
fn fee_inside_the_window_is_capped() {
    let state = schedule(200, 50, 100, 100);
    assert_eq!(calculate_unstake_fee(50, &state), Ok(100));
    assert_eq!(calculate_unstake_fee(80, &state), Ok(80));
    assert_eq!(calculate_unstake_fee(99, &state), Ok(52));
    assert_eq!(calculate_unstake_fee(100, &state), Ok(50));
}

#[test]
fn fee_with_zero_window_is_rejected() {
    let state = schedule(100, 1, 100, 0);
    assert_eq!(calculate_unstake_fee(0, &state), Err(PlatformError::InvalidFeeConfig));
    assert_eq!(calculate_unstake_fee(5, &state), Err(PlatformError::InvalidFeeConfig));
}

#[test]
fn fee_does_not_grow_with_time() {
    let state = defaults();
    let mut last = calculate_unstake_fee(0, &state).unwrap();
    let mut elapsed = 0u64;
    while elapsed <= 90_000 {
        let fee = calculate_unstake_fee(elapsed, &state).unwrap();
        assert!(fee <= last);
        last = fee;
        elapsed += 617;
    }
    assert_eq!(last, 1_000_000);
}

#[test]
fn fee_of_a_schedule_that_rises_steps_up_at_the_end_of_the_window() {
    let state = schedule(10, 50, 100, 10);
    assert_eq!(calculate_unstake_fee(0, &state), Ok(10));
    assert_eq!(calculate_unstake_fee(9, &state), Ok(10));
    assert_eq!(calculate_unstake_fee(10, &state), Ok(50));
}

#[test]
fn fee_of_the_largest_schedule_does_not_overflow() {
    let state = schedule(u64::MAX, 0, u64::MAX, u32::MAX);
    assert_eq!(calculate_unstake_fee(0, &state), Ok(u64::MAX));
    assert_eq!(calculate_unstake_fee(u32::MAX as u64 - 1, &state), Ok(4_294_967_297));
    assert_eq!(calculate_unstake_fee(u32::MAX as u64, &state), Ok(0));
}

#[test]
fn program_state_starts_with_the_default_schedule() {
    let mut ctx = InitProgramState {
        program_state: schedule(1, 2, 3, 4),
        initializer: key(1),
        treasury: key(7),
        bump: 254,
    };
    assert_eq!(init_program_state(&mut ctx), Ok(()));
    assert_eq!(
        ctx.program_state,
        ProgramState {
            fee_immediate_lamports: 100_000_000,
            fee_regular_lamports: 1_000_000,
            fee_max_lamports: 100_000_000,
            decay_duration_seconds: 86_400,
            treasury: key(7),
            bump: 254,
        }
    );
    assert_eq!(ctx.initializer, key(1));
    assert_eq!(ctx.treasury, key(7));
    assert_eq!(ProgramState::SPACE, 61);
    assert_eq!(ProgramState::DEFAULT_IMMEDIATE_FEE, 100_000_000);
    assert_eq!(ProgramState::DEFAULT_REGULAR_FEE, 1_000_000);
    assert_eq!(ProgramState::DEFAULT_MAX_FEE, 100_000_000);
    assert_eq!(ProgramState::DEFAULT_DECAY_DURATION, 86_400);
}
