use anchor_lang::prelude::ProgramError;
use ryft::{
    flash_loan, repay_flash_loan, stake, BorrowerReputation, CustomError, FlashLoan,
    FlashLoanState, GlobalState, Identity, LedgerError, RepayFlashLoan, Stake, TokenAccount,
    UserStake,
};

fn id(byte: u8) -> Identity {
    Identity::new([byte; 32])
}

fn ledger(active: bool, whitelist: Vec<Identity>) -> GlobalState {
    GlobalState {
        admin: id(1),
        fee_rate: 100,
        total_liquidity: 55,
        total_staked: 66,
        accumulated_fees: 7,
        is_flash_loan_active: active,
        treasury_account: id(2),
        flash_loan_whitelist: whitelist,
    }
}

fn stake_ctx(user_stake: UserStake) -> Stake {
    Stake {
        global_state: ledger(false, Vec::new()),
        user: id(20),
        user_stake,
        user_token_account: TokenAccount { key: id(21), amount: 9_999 },
        stake_vault: TokenAccount { key: id(22), amount: 0 },
        stake_vault_authority: id(23),
        token_program: id(13),
    }
}

fn issue_ctx(global_state: GlobalState, pool_balance: u64) -> FlashLoan {
    FlashLoan {
        global_state,
        pool_account: TokenAccount { key: id(12), amount: pool_balance },
        pool_authority: id(14),
        borrower_token_account: TokenAccount { key: id(31), amount: 0 },
        borrower: id(30),
        flash_loan_state: FlashLoanState::default(),
        borrower_collateral_account: TokenAccount { key: id(32), amount: 500 },
        collateral_escrow: TokenAccount { key: id(33), amount: 0 },
        token_program: id(13),
    }
}

// Outside the runtime there is no clock to be read: these tests see the
// ledger hand the runtime's refusal on and keep its records as they were.

#[test]
fn stake_on_a_stake_that_holds_something_reads_no_clock() {
    let held = UserStake { owner: id(20), amount: 5, reward_debt: 0, last_stake_timestamp: 50 };
    let mut ctx = stake_ctx(held);
    let order = stake(&mut ctx, 10).unwrap();
    assert_eq!(order.amount, 10);
    assert_eq!(ctx.user_stake.amount, 15);
    assert_eq!(ctx.user_stake.last_stake_timestamp, 50);
    assert_eq!(ctx.global_state.total_staked, 76);
}

#[test]
fn stake_on_an_empty_stake_passes_the_clock_error_on() {
    let mut ctx = stake_ctx(UserStake::default());
    let before = ctx.clone();
    assert_eq!(stake(&mut ctx, 10), Err(LedgerError::Clock(ProgramError::UnsupportedSysvar)));
    assert_eq!(ctx, before);
}

#[test]
fn flash_loan_reports_a_refusal_before_it_reads_the_clock() {
    let mut ctx = issue_ctx(ledger(true, Vec::new()), 1_000);
    let before = ctx.clone();
    assert_eq!(
        flash_loan(&mut ctx, 10, 0),
        Err(LedgerError::Rejected(CustomError::FlashLoanInProgress))
    );
    assert_eq!(ctx, before);

    let mut ctx = issue_ctx(ledger(false, vec![id(77)]), 1_000);
    let before = ctx.clone();
    assert_eq!(
        flash_loan(&mut ctx, 10, 0),
        Err(LedgerError::Rejected(CustomError::NotWhitelisted))
    );
    assert_eq!(ctx, before);

    let mut ctx = issue_ctx(ledger(false, Vec::new()), 9);
    let before = ctx.clone();
    assert_eq!(
        flash_loan(&mut ctx, 10, 0),
        Err(LedgerError::Rejected(CustomError::InsufficientLiquidity))
    );
    assert_eq!(ctx, before);
}

#[test]
fn flash_loan_without_a_clock_leaves_the_ledger_idle() {
    let mut ctx = issue_ctx(ledger(false, Vec::new()), 1_000);
    let before = ctx.clone();
    assert_eq!(
        flash_loan(&mut ctx, 10, 3),
        Err(LedgerError::Clock(ProgramError::UnsupportedSysvar))
    );
    assert_eq!(ctx, before);
    assert!(!ctx.global_state.is_flash_loan_active);
}

#[test]
fn repay_without_a_clock_changes_nothing() {
    let mut ctx = RepayFlashLoan {
        global_state: ledger(true, Vec::new()),
        pool_account: TokenAccount { key: id(12), amount: 1_000 },
        pool_authority: id(14),
        flash_loan_state: FlashLoanState { amount: 10, fee: 1, start_time: 0, collateral: 0 },
        borrower: id(30),
        borrower_reputation: BorrowerReputation::default(),
        token_program: id(13),
    };
    let before = ctx.clone();
    assert_eq!(
        repay_flash_loan(&mut ctx),
        Err(LedgerError::Clock(ProgramError::UnsupportedSysvar))
    );
    assert_eq!(ctx, before);
}
