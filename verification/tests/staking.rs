use ryft::{
    compound_rewards, distribute_rewards, stake_at, unstake, CompoundRewards, CustomError,
    DistributeRewards, GlobalState, Identity, Stake, TokenAccount, TransferContext,
    TransferOrder, Unstake, UserStake,
};

fn id(byte: u8) -> Identity {
    Identity::new([byte; 32])
}

fn ledger(total_staked: u64) -> GlobalState {
    GlobalState {
        admin: id(1),
        fee_rate: 100,
        total_liquidity: 55,
        total_staked,
        accumulated_fees: 7,
        is_flash_loan_active: false,
        treasury_account: id(2),
        flash_loan_whitelist: Vec::new(),
    }
}

fn position(amount: u64, last_stake_timestamp: i64) -> UserStake {
    UserStake { owner: id(20), amount, reward_debt: 3, last_stake_timestamp }
}

fn stake_ctx(global_state: GlobalState, user_stake: UserStake) -> Stake {
    Stake {
        global_state,
        user: id(20),
        user_stake,
        user_token_account: TokenAccount { key: id(21), amount: 9_999 },
        stake_vault: TokenAccount { key: id(22), amount: 0 },
        stake_vault_authority: id(23),
        token_program: id(13),
    }
}

fn unstake_ctx(global_state: GlobalState, user_stake: UserStake) -> Unstake {
    Unstake {
        global_state,
        user: id(20),
        user_stake,
        stake_vault: TokenAccount { key: id(22), amount: 9_999 },
        stake_vault_authority: id(23),
        user_token_account: TokenAccount { key: id(21), amount: 0 },
        token_program: id(13),
    }
}

#[test]
fn first_stake_is_stamped_with_the_time() {
    let mut ctx = stake_ctx(ledger(1_000), UserStake::default());
    let order = stake_at(&mut ctx, 300, 1_700_000_000);
    assert_eq!(ctx.user_stake.amount, 300);
    assert_eq!(ctx.user_stake.last_stake_timestamp, 1_700_000_000);
    assert_eq!(ctx.user_stake.owner, Identity::default());
    assert_eq!(ctx.user_stake.reward_debt, 0);
    assert_eq!(ctx.global_state, ledger(1_300));
    assert_eq!(
        order,
        TransferOrder {
            context: TransferContext {
                program: id(13),
                from: id(21),
                to: id(22),
                authority: id(20),
            },
            amount: 300,
        }
    );
}

#[test]
fn further_stake_keeps_the_earlier_time() {
    let mut ctx = stake_ctx(ledger(1_000), position(300, 50));
    stake_at(&mut ctx, 200, 99);
    assert_eq!(ctx, stake_ctx(ledger(1_200), position(500, 50)));
}

#[test]
fn stake_after_emptying_is_stamped_anew() {
    let mut ctx = stake_ctx(ledger(1_000), position(0, 50));
    stake_at(&mut ctx, 200, 99);
    assert_eq!(ctx, stake_ctx(ledger(1_200), position(200, 99)));
}

#[test]
fn stake_of_nothing_on_an_empty_stake_still_takes_the_time() {
    let mut ctx = stake_ctx(ledger(1_000), position(0, 50));
    let order = stake_at(&mut ctx, 0, -5);
    assert_eq!(order.amount, 0);
    assert_eq!(ctx, stake_ctx(ledger(1_000), position(0, -5)));
}

#[test]
fn stake_has_room_up_to_the_limit_of_both_counters() {
    let ctx = stake_ctx(ledger(u64::MAX - 10), position(4, 0));
    assert!(ctx.has_room(10));
    assert!(!ctx.has_room(11));
    let ctx = stake_ctx(ledger(4), position(u64::MAX - 10, 0));
    assert!(ctx.has_room(10));
    assert!(!ctx.has_room(11));
    let mut ctx = stake_ctx(ledger(u64::MAX - 10), position(u64::MAX - 10, 0));
    stake_at(&mut ctx, 10, 1);
    assert_eq!(ctx.user_stake.amount, u64::MAX);
    assert_eq!(ctx.global_state.total_staked, u64::MAX);
}

#[test]
fn stake_route_runs_from_party_to_vault() {
    let ctx = stake_ctx(ledger(0), position(0, 0));
    let route = ctx.into_transfer_to_stake_context();
    assert_eq!(route.program, ctx.token_program);
    assert_eq!(route.from, ctx.user_token_account.key);
    assert_eq!(route.to, ctx.stake_vault.key);
    assert_eq!(route.authority, ctx.user);
}

#[test]
fn unstake_route_runs_from_vault_to_party() {
    let ctx = unstake_ctx(ledger(0), position(0, 0));
    let route = ctx.into_transfer_from_stake_context();
    assert_eq!(route.program, ctx.token_program);
    assert_eq!(route.from, ctx.stake_vault.key);
    assert_eq!(route.to, ctx.user_token_account.key);
    assert_eq!(route.authority, ctx.stake_vault_authority);
}

#[test]
fn unstake_takes_from_stake_and_total() {
    let mut ctx = unstake_ctx(ledger(1_000), position(300, 50));
    let order = unstake(&mut ctx, 100).unwrap();
    assert_eq!(ctx, unstake_ctx(ledger(900), position(200, 50)));
    assert_eq!(
        order,
        TransferOrder {
            context: TransferContext {
                program: id(13),
                from: id(22),
                to: id(21),
                authority: id(23),
            },
            amount: 100,
        }
    );
}

#[test]
fn unstake_beyond_the_stake_is_refused() {
    let mut ctx = unstake_ctx(ledger(1_000), position(300, 50));
    let before = ctx.clone();
    assert_eq!(unstake(&mut ctx, 301), Err(CustomError::InsufficientStake));
    assert_eq!(ctx, before);
    assert_eq!(unstake(&mut ctx, u64::MAX), Err(CustomError::InsufficientStake));
    assert_eq!(ctx, before);
}

#[test]
fn stake_300_unstake_300_unstake_1_fails_at_the_third() {
    let mut staking = stake_ctx(ledger(0), UserStake::default());
    stake_at(&mut staking, 300, 10);
    let mut unstaking = unstake_ctx(staking.global_state, staking.user_stake);
    assert!(unstake(&mut unstaking, 300).is_ok());
    assert_eq!(unstaking.user_stake.amount, 0);
    assert_eq!(unstaking.global_state.total_staked, 0);
    let before = unstaking.clone();
    assert_eq!(unstake(&mut unstaking, 1), Err(CustomError::InsufficientStake));
    assert_eq!(unstaking, before);
}

#[test]
fn unstake_needs_a_total_that_covers_the_stake() {
    let ctx = unstake_ctx(ledger(100), position(300, 50));
    assert!(ctx.total_covers(100));
    assert!(!ctx.total_covers(101));
    assert!(!ctx.total_covers(300));
    assert!(ctx.total_covers(301));
}

#[test]
fn total_staked_is_the_sum_over_all_parties() {
    let mut state = ledger(0);
    let mut stakes = [UserStake::default(), UserStake::default(), UserStake::default()];
    let mut net = [0i128; 3];
    let steps: [(usize, bool, u64); 10] = [
        (0, true, 300),
        (1, true, 50),
        (0, false, 100),
        (2, false, 1),
        (1, false, 51),
        (1, false, 50),
        (2, true, 7),
        (0, false, 200),
        (0, false, 1),
        (1, true, 9),
    ];
    for (party, is_stake, amount) in steps {
        if is_stake {
            let mut ctx = stake_ctx(state, stakes[party]);
            stake_at(&mut ctx, amount, 77);
            net[party] += amount as i128;
            state = ctx.global_state;
            stakes[party] = ctx.user_stake;
        } else {
            let mut ctx = unstake_ctx(state, stakes[party]);
            let before = ctx.clone();
            match unstake(&mut ctx, amount) {
                Ok(_) => net[party] -= amount as i128,
                Err(error) => {
                    assert_eq!(error, CustomError::InsufficientStake);
                    assert!((amount as i128) > net[party]);
                    assert_eq!(ctx, before);
                },
            }
            state = ctx.global_state;
            stakes[party] = ctx.user_stake;
        }
        for who in 0..3 {
            assert_eq!(stakes[who].amount as i128, net[who]);
        }
        let sum: u64 = stakes.iter().map(|s| s.amount).sum();
        assert_eq!(state.total_staked, sum);
    }
    assert_eq!(stakes[0].amount, 0);
    assert_eq!(stakes[1].amount, 9);
    assert_eq!(stakes[2].amount, 7);
    assert_eq!(state, ledger(16));
}

#[test]
fn distribute_rewards_has_no_effect() {
    let mut ctx = DistributeRewards { global_state: ledger(1_000) };
    distribute_rewards(&mut ctx);
    assert_eq!(ctx, DistributeRewards { global_state: ledger(1_000) });
}

#[test]
fn compound_rewards_has_no_effect() {
    let mut ctx = CompoundRewards {
        global_state: ledger(1_000),
        user: id(20),
        user_stake: position(300, 50),
        token_program: id(13),
    };
    let before = ctx.clone();
    compound_rewards(&mut ctx);
    assert_eq!(ctx, before);
}
