use ryft::{
    initialize, update_fee_rate, CustomError, GlobalState, Identity, Initialize, UpdateFeeRate,
};

fn id(byte: u8) -> Identity {
    Identity::new([byte; 32])
}

fn used_ledger() -> GlobalState {
    GlobalState {
        admin: id(1),
        fee_rate: 100,
        total_liquidity: 11,
        total_staked: 22,
        accumulated_fees: 33,
        is_flash_loan_active: true,
        treasury_account: id(2),
        flash_loan_whitelist: vec![id(9), id(8)],
    }
}

#[test]
fn initialize_sets_up_an_empty_ledger() {
    let mut ctx = Initialize { global_state: used_ledger(), admin: id(5), treasury: id(6) };
    initialize(&mut ctx, 250);
    assert_eq!(
        ctx.global_state,
        GlobalState {
            admin: id(5),
            fee_rate: 250,
            total_liquidity: 0,
            total_staked: 0,
            accumulated_fees: 0,
            is_flash_loan_active: false,
            treasury_account: id(6),
            flash_loan_whitelist: Vec::new(),
        }
    );
    assert_eq!(ctx.admin, id(5));
    assert_eq!(ctx.treasury, id(6));
}

#[test]
fn initialize_takes_any_fee_rate() {
    let mut ctx = Initialize { global_state: used_ledger(), admin: id(5), treasury: id(6) };
    initialize(&mut ctx, u64::MAX);
    assert_eq!(ctx.global_state.fee_rate, u64::MAX);
    initialize(&mut ctx, 0);
    assert_eq!(ctx.global_state.fee_rate, 0);
}

#[test]
fn administrator_replaces_the_fee_rate() {
    let mut ctx = UpdateFeeRate { global_state: used_ledger(), admin: id(1) };
    assert_eq!(update_fee_rate(&mut ctx, 42), Ok(()));
    let mut expected = used_ledger();
    expected.fee_rate = 42;
    assert_eq!(ctx, UpdateFeeRate { global_state: expected, admin: id(1) });
}

#[test]
fn fee_rate_has_no_upper_bound() {
    let mut ctx = UpdateFeeRate { global_state: used_ledger(), admin: id(1) };
    assert_eq!(update_fee_rate(&mut ctx, 10_001), Ok(()));
    assert_eq!(ctx.global_state.fee_rate, 10_001);
    assert_eq!(update_fee_rate(&mut ctx, u64::MAX), Ok(()));
    assert_eq!(ctx.global_state.fee_rate, u64::MAX);
}

#[test]
fn stranger_cannot_replace_the_fee_rate() {
    let mut ctx = UpdateFeeRate { global_state: used_ledger(), admin: id(3) };
    let before = ctx.clone();
    assert_eq!(update_fee_rate(&mut ctx, 42), Err(CustomError::Unauthorized));
    assert_eq!(ctx, before);
    assert_eq!(ctx.global_state.fee_rate, 100);
}

#[test]
fn treasury_is_not_the_administrator() {
    let mut ctx = UpdateFeeRate { global_state: used_ledger(), admin: id(2) };
    assert_eq!(update_fee_rate(&mut ctx, 42), Err(CustomError::Unauthorized));
}

#[test]
fn administrator_is_told_apart_by_a_single_byte() {
    let mut bytes = [1u8; 32];
    bytes[31] = 0;
    let mut ctx = UpdateFeeRate { global_state: used_ledger(), admin: Identity::new(bytes) };
    assert_eq!(update_fee_rate(&mut ctx, 42), Err(CustomError::Unauthorized));
    assert_eq!(ctx.global_state.fee_rate, 100);
}
