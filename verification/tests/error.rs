use ryft::{CustomError, LedgerError};

#[test]
fn each_refusal_has_its_message() {
    assert_eq!(CustomError::InsufficientLiquidity.message(), "Insufficient liquidity in the pool.");
    assert_eq!(CustomError::InsufficientStake.message(), "Insufficient staked balance.");
    assert_eq!(CustomError::FlashLoanInProgress.message(), "Flash loan already in progress.");
    assert_eq!(
        CustomError::FlashLoanExpired.message(),
        "Flash loan expired (time limit exceeded)."
    );
    assert_eq!(
        CustomError::NotWhitelisted.message(),
        "Borrower not whitelisted for flash loans."
    );
    assert_eq!(CustomError::Unauthorized.message(), "Unauthorized.");
}

#[test]
fn refusals_are_told_apart() {
    let all = [
        CustomError::InsufficientLiquidity,
        CustomError::InsufficientStake,
        CustomError::FlashLoanInProgress,
        CustomError::FlashLoanExpired,
        CustomError::NotWhitelisted,
        CustomError::Unauthorized,
    ];
    for (i, a) in all.iter().enumerate() {
        for (j, b) in all.iter().enumerate() {
            assert_eq!(a == b, i == j);
            assert_eq!(a.message() == b.message(), i == j);
        }
    }
}

#[test]
fn a_refusal_is_not_a_clock_failure() {
    let refused = LedgerError::Rejected(CustomError::FlashLoanExpired);
    assert!(matches!(refused, LedgerError::Rejected(CustomError::FlashLoanExpired)));
    assert!(!matches!(refused, LedgerError::Clock(_)));
}
