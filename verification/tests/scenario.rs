use agent_platform::{
    create_agent, create_staking_pool, init_program_state, init_stake, stake, withdraw_stake,
    AgentRegistry, CreateAgent, CreateStakingPool, InitProgramState, InitStake, LamportTransfer,
    PlatformError, ProgramState, Pubkey, Stake, StakeAccount, StakingPool, WithdrawStake,
    FLAG_ACTIVE, FLAG_HAS_STAKING,
};

fn key(b: u8) -> Pubkey {
    Pubkey::new_from_array([b; 32])
}

#[test]
fn an_agent_is_created_staked_on_and_withdrawn_from() {
    let creator = key(1);
    let staker = key(2);
    let now = 1_700_000_000;

    let blank = AgentRegistry {
        version: 0,
        creator: Pubkey::default(),
        owner: Pubkey::default(),
        memory_mode: 0,
        memory_ptr_len: 0,
        memory_ptr: [0u8; 96],
        memory_hash: [0u8; 32],
        card_uri_len: 0,
        card_uri: [0u8; 96],
        card_hash: [0u8; 32],
        flags: 0,
        bump: 0,
        _padding: [0u8; 7],
    };
    let mut create = CreateAgent { agent: blank, creator_signer: creator, bump: 255 };
    let made = create_agent(
        &mut create,
        creator,
        "https://x.io/card.json".to_string(),
        [7u8; 32],
        Some(true),
        None,
        None,
        None,
    );
    assert!(made.is_ok());
    let agent = create.agent;
    assert_eq!(agent.flags & (FLAG_ACTIVE | FLAG_HAS_STAKING), FLAG_ACTIVE | FLAG_HAS_STAKING);

    let mut init = InitProgramState {
        program_state: ProgramState {
            fee_immediate_lamports: 0,
            fee_regular_lamports: 0,
            fee_max_lamports: 0,
            decay_duration_seconds: 0,
            treasury: Pubkey::default(),
            bump: 0,
        },
        initializer: key(5),
        treasury: key(6),
        bump: 254,
    };
    assert_eq!(init_program_state(&mut init), Ok(()));

    let mut make_pool = CreateStakingPool {
        agent,
        agent_key: key(10),
        staking_pool: StakingPool {
            agent_pda: Pubkey::default(),
            owner: Pubkey::default(),
            token_mint: Pubkey::default(),
            token_vault: Pubkey::default(),
            min_stake_amount: 0,
            total_staked: 0,
            staker_count: 0,
            created_at: 0,
            flags: 0,
            bump: 0,
        },
        staking_pool_key: key(11),
        staking_pool_bump: 253,
        token_vault: key(12),
        token_vault_bump: 252,
        token_mint: key(13),
        owner: creator,
        token_program: key(14),
    };
    assert!(create_staking_pool(&mut make_pool, 1000, now).is_ok());
    assert_eq!(make_pool.staking_pool.min_stake_amount, 1000);

    let mut open = InitStake {
        staking_pool: make_pool.staking_pool,
        stake_account: StakeAccount {
            staker: Pubkey::default(),
            agent_pda: Pubkey::default(),
            staked_amount: 0,
            staked_at: 0,
            last_updated_at: 0,
            bump: 0,
        },
        stake_account_bump: 251,
        staker,
    };
    assert_eq!(init_stake(&mut open, now), Ok(()));

    let mut deposit = Stake {
        staking_pool: open.staking_pool,
        stake_account: open.stake_account,
        token_vault: key(12),
        staker_token_account: key(15),
        staker,
    };
    assert_eq!(stake(&mut deposit, 500, now), Err(PlatformError::BelowMinimumStake));
    assert_eq!(deposit.stake_account.staked_amount, 0);
    assert_eq!(deposit.staking_pool.staker_count, 0);
    assert!(stake(&mut deposit, 1000, now).is_ok());
    assert_eq!(deposit.stake_account.staked_amount, 1000);
    assert_eq!(deposit.staking_pool.staker_count, 1);
    assert_eq!(deposit.staking_pool.total_staked, 1000);

    let mut withdraw = WithdrawStake {
        program_state: init.program_state,
        staking_pool: deposit.staking_pool,
        stake_account: deposit.stake_account,
        token_vault: key(12),
        staker_token_account: key(15),
        staker,
        staker_lamports: 2_000_000_000,
    };
    let withdrawal = withdraw_stake(&mut withdraw, now, 890_880).unwrap();
    // No time has passed: the fee is the immediate fee, which is also the cap.
    assert_eq!(withdrawal.event.fee, 100_000_000);
    assert_eq!(
        withdrawal.fee,
        Some(LamportTransfer { from: staker, to: key(6), lamports: 100_000_000 })
    );
    assert_eq!(withdrawal.payout.amount, 1000);
    assert_eq!(withdraw.stake_account.staked_amount, 0);
    assert_eq!(withdraw.staking_pool.total_staked, 0);
    assert_eq!(withdraw.staking_pool.staker_count, 1);
}
