//! A shared-liquidity ledger with staking and flash credit.
//!
//! Liquidity providers pool an asset, a second group of parties stakes
//! another one, and borrowers draw flash loans on the pool that they repay,
//! with a fee, within a fixed window. This crate is the bookkeeping of it: the
//! records, the rule of each operation, and the proof that each operation
//! keeps to its rule.
//!
//! An operation takes the records that it works on and hands back what is to
//! be asked of the token transfer gateway. Where it refuses, it says why and
//! leaves every record as it was. Where it goes along, the records are as
//! they shall be once the gateway has carried out every transfer that the
//! operation orders: whoever drives the ledger keeps them only then, and
//! keeps the records of before where the gateway fails.

pub mod admin;
pub mod clock;
pub mod error;
pub mod flash;
pub mod gateway;
pub mod identity;
pub mod liquidity;
pub mod staking;
pub mod state;

pub use admin::{initialize, update_fee_rate, Initialize, UpdateFeeRate};
pub use error::{CustomError, LedgerError};
pub use flash::{
    expired_at, fee_of, flash_loan, flash_loan_at, flash_loan_fee, is_expired,
    multi_hop_flash_loan, repay_flash_loan, repay_flash_loan_at, CreditDesk, CreditOp, FlashLoan,
    FlashLoanOrders, MultiHopFlashLoan, RecordClosure, RepayFlashLoan, BASIS_POINTS,
    REPAYMENT_WINDOW,
};
pub use gateway::{TokenAccount, TransferContext, TransferOrder};
pub use identity::{contains_identity, Identity};
pub use liquidity::{
    deposit_liquidity, net_deposits, withdraw_liquidity, DepositLiquidity, LiquidityOp,
    WithdrawLiquidity,
};
pub use staking::{
    compound_rewards, distribute_rewards, net_staked, stake, stake_at, staked_sum, unstake,
    CompoundRewards, DistributeRewards, Stake, StakeBook, StakeOp, Unstake,
};
pub use state::{
    BorrowerReputation, FlashLoanState, GlobalState, Ledger, LoanRecord, Reputation,
    StakePosition, UserStake,
};
