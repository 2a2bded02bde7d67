//! The records that the ledger keeps, and the mathematical value of each.
//!
//! Every record is plain data. Its view replaces the machine integers by
//! unbounded ones, so that the rules of the ledger can be written down without
//! any thought of overflow; the operations then say when a result fits.

use vstd::prelude::*;
use crate::identity::Identity;

verus! {

/// The pool-wide ledger: one per deployment, shared by every operation.
#[derive(Clone, Debug, PartialEq, Eq)]
pub struct GlobalState {
    /// The party that may change the fee rate.
    pub admin: Identity,
    /// The fee on flash loans, in basis points.
    pub fee_rate: u64,
    /// What liquidity providers have deposited and not withdrawn.
    pub total_liquidity: u64,
    /// What all parties together have staked.
    pub total_staked: u64,
    /// The fees that repaid flash loans have brought in.
    pub accumulated_fees: u64,
    /// Set while a flash loan is out and not yet repaid.
    pub is_flash_loan_active: bool,
    /// The account to which fees are to be redistributed.
    pub treasury_account: Identity,
    /// The borrowers that may take flash loans; empty means anybody may.
    pub flash_loan_whitelist: Vec<Identity>,
}

/// The value of a [`GlobalState`].
pub struct Ledger {
    pub admin: Identity,
    pub fee_rate: nat,
    pub total_liquidity: nat,
    pub total_staked: nat,
    pub accumulated_fees: nat,
    pub flash_loan_active: bool,
    pub treasury: Identity,
    pub whitelist: Seq<Identity>,
}

impl View for GlobalState {
    type V = Ledger;

    open spec fn view(&self) -> Ledger {
        Ledger {
            admin: self.admin,
            fee_rate: self.fee_rate as nat,
            total_liquidity: self.total_liquidity as nat,
            total_staked: self.total_staked as nat,
            accumulated_fees: self.accumulated_fees as nat,
            flash_loan_active: self.is_flash_loan_active,
            treasury: self.treasury_account,
            whitelist: self.flash_loan_whitelist@,
        }
    }
}

impl Ledger {
    /// The ledger as it stands right after deployment: `admin` in charge,
    /// nothing deposited, staked or earned, no loan out, nobody excluded.
    pub open spec fn genesis(admin: Identity, treasury: Identity, fee_rate: nat) -> Ledger {
        Ledger {
            admin,
            fee_rate,
            total_liquidity: 0,
            total_staked: 0,
            accumulated_fees: 0,
            flash_loan_active: false,
            treasury,
            whitelist: Seq::empty(),
        }
    }

    /// The ledger with its fee rate replaced.
    pub open spec fn with_fee_rate(self, fee_rate: nat) -> Ledger {
        Ledger { fee_rate, ..self }
    }

    /// The ledger after `amount` came into the pool.
    pub open spec fn deposit(self, amount: nat) -> Ledger {
        Ledger { total_liquidity: self.total_liquidity + amount, ..self }
    }

    /// The ledger after `amount` left the pool; meant for
    /// `amount <= self.total_liquidity`.
    pub open spec fn withdraw(self, amount: nat) -> Ledger {
        Ledger { total_liquidity: (self.total_liquidity - amount) as nat, ..self }
    }

    /// The ledger after some party staked `amount`.
    pub open spec fn stake(self, amount: nat) -> Ledger {
        Ledger { total_staked: self.total_staked + amount, ..self }
    }

    /// The ledger after some party took `amount` out of its stake; meant for
    /// `amount <= self.total_staked`.
    pub open spec fn unstake(self, amount: nat) -> Ledger {
        Ledger { total_staked: (self.total_staked - amount) as nat, ..self }
    }

    /// Whether `borrower` may take a flash loan: the allow-list is empty or
    /// names it.
    pub open spec fn allows(self, borrower: Identity) -> bool {
        self.whitelist.len() == 0 || self.whitelist.contains(borrower)
    }

    /// The ledger with a flash loan out.
    pub open spec fn open_loan(self) -> Ledger {
        Ledger { flash_loan_active: true, ..self }
    }

    /// The ledger after the loan that was out came back with `fee`.
    pub open spec fn settle_loan(self, fee: nat) -> Ledger {
        Ledger {
            accumulated_fees: self.accumulated_fees + fee,
            flash_loan_active: false,
            ..self
        }
    }
}

/// What one party has staked.
#[derive(Clone, Copy, Debug, PartialEq, Eq)]
pub struct UserStake {
    /// The party whose stake this is.
    pub owner: Identity,
    /// The amount staked at present.
    pub amount: u64,
    /// Reserved for reward accounting; no operation reads or writes it.
    pub reward_debt: u64,
    /// When the party last began to stake from nothing.
    pub last_stake_timestamp: i64,
}

/// The value of a [`UserStake`].
pub struct StakePosition {
    pub owner: Identity,
    pub amount: nat,
    pub reward_debt: nat,
    pub last_stake_timestamp: int,
}

impl View for UserStake {
    type V = StakePosition;

    open spec fn view(&self) -> StakePosition {
        StakePosition {
            owner: self.owner,
            amount: self.amount as nat,
            reward_debt: self.reward_debt as nat,
            last_stake_timestamp: self.last_stake_timestamp as int,
        }
    }
}

impl StakePosition {
    /// The position after `amount` more was staked at time `now`. A position
    /// that held nothing starts anew and takes `now` as its timestamp.
    pub open spec fn stake(self, amount: nat, now: int) -> StakePosition {
        StakePosition {
            amount: self.amount + amount,
            last_stake_timestamp: if self.amount == 0 {
                now
            } else {
                self.last_stake_timestamp
            },
            ..self
        }
    }

    /// The position after `amount` was taken out; meant for
    /// `amount <= self.amount`.
    pub open spec fn unstake(self, amount: nat) -> StakePosition {
        StakePosition { amount: (self.amount - amount) as nat, ..self }
    }
}

impl Default for UserStake {
    /// A stake record as it is right after its creation.
    fn default() -> (record: Self)
        ensures
            record.owner.is_zero(),
            record.amount == 0,
            record.reward_debt == 0,
            record.last_stake_timestamp == 0,
    {
        UserStake {
            owner: Identity::default(),
            amount: 0,
            reward_debt: 0,
            last_stake_timestamp: 0,
        }
    }
}

/// The flash loan that is out.
#[derive(Clone, Copy, Debug, PartialEq, Eq)]
pub struct FlashLoanState {
    /// The principal that was lent.
    pub amount: u64,
    /// The fee that is owed on top of it.
    pub fee: u64,
    /// When the loan was issued.
    pub start_time: i64,
    /// The collateral that the borrower put up.
    pub collateral: u64,
}

/// The value of a [`FlashLoanState`].
pub struct LoanRecord {
    pub amount: nat,
    pub fee: nat,
    pub start_time: int,
    pub collateral: nat,
}

impl View for FlashLoanState {
    type V = LoanRecord;

    open spec fn view(&self) -> LoanRecord {
        LoanRecord {
            amount: self.amount as nat,
            fee: self.fee as nat,
            start_time: self.start_time as int,
            collateral: self.collateral as nat,
        }
    }
}

impl Default for FlashLoanState {
    /// A loan record as it is right after its creation.
    fn default() -> (record: Self)
        ensures
            record@ == (LoanRecord { amount: 0, fee: 0, start_time: 0, collateral: 0 }),
    {
        FlashLoanState { amount: 0, fee: 0, start_time: 0, collateral: 0 }
    }
}

/// How often a borrower has repaid a flash loan.
#[derive(Clone, Copy, Debug, PartialEq, Eq)]
pub struct BorrowerReputation {
    /// The borrower that the count belongs to.
    pub borrower: Identity,
    /// The number of loans repaid; it never goes down.
    pub reputation: u64,
}

/// The value of a [`BorrowerReputation`].
pub struct Reputation {
    pub borrower: Identity,
    pub reputation: nat,
}

impl View for BorrowerReputation {
    type V = Reputation;

    open spec fn view(&self) -> Reputation {
        Reputation { borrower: self.borrower, reputation: self.reputation as nat }
    }
}

impl Reputation {
    /// The record after one more repayment by `borrower`.
    pub open spec fn credit(self, borrower: Identity) -> Reputation {
        Reputation { borrower, reputation: self.reputation + 1 }
    }
}

impl Default for BorrowerReputation {
    /// A reputation record as it is right after its creation.
    fn default() -> (record: Self)
        ensures
            record.borrower.is_zero(),
            record.reputation == 0,
    {
        BorrowerReputation { borrower: Identity::default(), reputation: 0 }
    }
}

} // verus!
