//! Flash credit: a loan is issued, and repaid with its fee within a fixed
//! window.
//!
//! The ledger is either idle or has exactly one loan out. The flag
//! `is_flash_loan_active` of the pool-wide ledger tells which: issuing a loan
//! sets it, repaying the loan clears it, and while it is set no other loan is
//! issued.

use vstd::prelude::*;
use crate::clock::unix_timestamp;
use crate::error::{CustomError, LedgerError};
use crate::gateway::{TokenAccount, TransferContext, TransferOrder};
use crate::identity::{contains_identity, Identity};
use crate::state::{BorrowerReputation, FlashLoanState, GlobalState, Ledger, LoanRecord};

verus! {

/// The number of basis points in the whole of an amount.
pub const BASIS_POINTS: u64 = 10000;

/// The number of seconds after its issue within which a loan can be repaid.
pub const REPAYMENT_WINDOW: i64 = 30;

/// The fee on `amount` at `fee_rate` basis points, rounded down.
pub open spec fn fee_of(amount: nat, fee_rate: nat) -> nat {
    (amount * fee_rate) / (BASIS_POINTS as nat)
}

/// Whether a loan issued at `start_time` can no longer be repaid at `now`.
pub open spec fn expired_at(start_time: int, now: int) -> bool {
    now - start_time > REPAYMENT_WINDOW
}

/// Computes the fee on `amount` at `fee_rate` basis points. The product is
/// taken in 128 bits, so that only a fee too large for 64 bits is out of
/// reach.
pub fn flash_loan_fee(amount: u64, fee_rate: u64) -> (fee: u64)
    requires
        fee_of(amount as nat, fee_rate as nat) <= u64::MAX,
    ensures
        fee == fee_of(amount as nat, fee_rate as nat),
{
    assert(amount * fee_rate <= u128::MAX) by (nonlinear_arith)
        requires
            amount <= u64::MAX,
            fee_rate <= u64::MAX,
    ;
    let product: u128 = (amount as u128) * (fee_rate as u128);
    let fee: u128 = product / (BASIS_POINTS as u128);
    fee as u64
}

/// Whether `now` lies past the repayment window of a loan issued at
/// `start_time`.
pub fn is_expired(start_time: i64, now: i64) -> (expired: bool)
    ensures
        expired == expired_at(start_time as int, now as int),
{
    (now as i128) - (start_time as i128) > (REPAYMENT_WINDOW as i128)
}

impl Ledger {
    /// Why the ledger refuses `borrower` a loan of `amount` on a pool that
    /// holds `pool_balance`, if it does. A loan that is out comes first, then
    /// the allow-list, then what the pool holds.
    pub open spec fn loan_rejection(
        self,
        borrower: Identity,
        pool_balance: nat,
        amount: nat,
    ) -> Option<CustomError> {
        if self.flash_loan_active {
            Some(CustomError::FlashLoanInProgress)
        } else if !self.allows(borrower) {
            Some(CustomError::NotWhitelisted)
        } else if pool_balance < amount {
            Some(CustomError::InsufficientLiquidity)
        } else {
            None
        }
    }
}

/// The accounts and records that take part in the issue of a flash loan.
#[derive(Clone, Debug, PartialEq, Eq)]
pub struct FlashLoan {
    pub global_state: GlobalState,
    /// The pool's token account, out of which the loan is paid.
    pub pool_account: TokenAccount,
    /// The party that signs for the pool.
    pub pool_authority: Identity,
    /// The account that receives the loan.
    pub borrower_token_account: TokenAccount,
    pub borrower: Identity,
    /// The record of the loan, created for this issue.
    pub flash_loan_state: FlashLoanState,
    /// The account out of which the borrower puts up collateral.
    pub borrower_collateral_account: TokenAccount,
    /// The account that holds the collateral.
    pub collateral_escrow: TokenAccount,
    pub token_program: Identity,
}

/// The transfers that go with the issue of a loan, in the order in which the
/// gateway is to carry them out.
#[derive(Clone, Copy, Debug, PartialEq, Eq)]
pub struct FlashLoanOrders {
    /// The collateral, from the borrower into escrow; none where the borrower
    /// puts up nothing.
    pub collateral: Option<TransferOrder>,
    /// The principal, from the pool to the borrower.
    pub principal: TransferOrder,
}

impl FlashLoan {
    /// The route of the principal: out of the pool, to the borrower, signed
    /// by the pool's authority.
    pub open spec fn borrower_route(&self) -> TransferContext {
        TransferContext {
            program: self.token_program,
            from: self.pool_account.key,
            to: self.borrower_token_account.key,
            authority: self.pool_authority,
        }
    }

    /// The route of the collateral: out of the borrower's collateral account,
    /// into escrow, signed by the borrower.
    pub open spec fn collateral_route(&self) -> TransferContext {
        TransferContext {
            program: self.token_program,
            from: self.borrower_collateral_account.key,
            to: self.collateral_escrow.key,
            authority: self.borrower,
        }
    }

    /// The route along which the principal goes to the borrower.
    pub fn into_transfer_to_borrower_context(&self) -> (route: TransferContext)
        ensures
            route == self.borrower_route(),
    {
        TransferContext {
            program: self.token_program,
            from: self.pool_account.key,
            to: self.borrower_token_account.key,
            authority: self.pool_authority,
        }
    }

    /// The route along which the collateral goes into escrow.
    pub fn into_transfer_collateral_context(&self) -> (route: TransferContext)
        ensures
            route == self.collateral_route(),
    {
        TransferContext {
            program: self.token_program,
            from: self.borrower_collateral_account.key,
            to: self.collateral_escrow.key,
            authority: self.borrower,
        }
    }

    /// Why a loan of `amount` is refused, if it is. A loan that is out comes
    /// first, then the allow-list, then what the pool's account holds.
    pub open spec fn spec_rejection(&self, amount: u64) -> Option<CustomError> {
        self.global_state@.loan_rejection(
            self.borrower,
            self.pool_account.amount as nat,
            amount as nat,
        )
    }

    /// Tells why a loan of `amount` would be refused, if it would, and
    /// changes nothing.
    #[verifier::when_used_as_spec(spec_rejection)]
    pub fn rejection(&self, amount: u64) -> (reason: Option<CustomError>)
        ensures
            reason == self.spec_rejection(amount),
    {
        if self.global_state.is_flash_loan_active {
            Some(CustomError::FlashLoanInProgress)
        } else if self.global_state.flash_loan_whitelist.len() != 0 && !contains_identity(
            &self.global_state.flash_loan_whitelist,
            &self.borrower,
        ) {
            Some(CustomError::NotWhitelisted)
        } else if self.pool_account.amount < amount {
            Some(CustomError::InsufficientLiquidity)
        } else {
            None
        }
    }

    /// Whether the fee on a loan of `amount` fits in 64 bits.
    pub open spec fn spec_fee_fits(&self, amount: u64) -> bool {
        fee_of(amount as nat, self.global_state.fee_rate as nat) <= u64::MAX
    }

    /// Tells whether the fee on a loan of `amount` fits in 64 bits.
    #[verifier::when_used_as_spec(spec_fee_fits)]
    pub fn fee_fits(&self, amount: u64) -> (fits: bool)
        ensures
            fits == self.spec_fee_fits(amount),
    {
        assert(amount * self.global_state.fee_rate <= u128::MAX) by (nonlinear_arith)
            requires
                amount <= u64::MAX,
                self.global_state.fee_rate <= u64::MAX,
        ;
        let product: u128 = (amount as u128) * (self.global_state.fee_rate as u128);
        product / (BASIS_POINTS as u128) <= (u64::MAX as u128)
    }

    /// The transfers that go with a loan of `amount` against
    /// `collateral_amount`.
    pub open spec fn orders(&self, amount: u64, collateral_amount: u64) -> FlashLoanOrders {
        FlashLoanOrders {
            collateral: if collateral_amount > 0 {
                Some(TransferOrder { context: self.collateral_route(), amount: collateral_amount })
            } else {
                None
            },
            principal: TransferOrder { context: self.borrower_route(), amount },
        }
    }

    /// Whether `after` is what the issue of `amount` against
    /// `collateral_amount` at time `now` makes of `self`: the ledger has a
    /// loan out, the record holds the loan with its fee, and nothing else has
    /// changed.
    pub open spec fn issues(
        &self,
        amount: u64,
        collateral_amount: u64,
        now: i64,
        after: FlashLoan,
    ) -> bool {
        &&& after.global_state@ == self.global_state@.open_loan()
        &&& after.flash_loan_state@ == (LoanRecord {
            amount: amount as nat,
            fee: fee_of(amount as nat, self.global_state.fee_rate as nat),
            start_time: now as int,
            collateral: collateral_amount as nat,
        })
        &&& after == (FlashLoan {
            global_state: after.global_state,
            flash_loan_state: after.flash_loan_state,
            ..*self
        })
    }
}

/// Decides whether a loan of `amount` is issued, and marks the ledger as
/// having a loan out if it is.
///
/// The mark is set as soon as no other loan is found to be out, before the
/// allow-list and the pool are looked at, and taken back where one of them
/// refuses the loan.
fn begin_flash_loan(ctx: &mut FlashLoan, amount: u64) -> (result: Result<(), CustomError>)
    ensures
        match result {
            Ok(()) => {
                &&& old(ctx).rejection(amount) is None
                &&& *final(ctx) == (FlashLoan {
                    global_state: GlobalState {
                        is_flash_loan_active: true,
                        ..old(ctx).global_state
                    },
                    ..*old(ctx)
                })
            },
            Err(e) => {
                &&& old(ctx).rejection(amount) == Some(e)
                &&& *final(ctx) == *old(ctx)
            },
        },
{
    if ctx.global_state.is_flash_loan_active {
        return Err(CustomError::FlashLoanInProgress);
    }
    ctx.global_state.is_flash_loan_active = true;
    if ctx.global_state.flash_loan_whitelist.len() != 0 {
        if !contains_identity(&ctx.global_state.flash_loan_whitelist, &ctx.borrower) {
            ctx.global_state.is_flash_loan_active = false;
            return Err(CustomError::NotWhitelisted);
        }
    }
    if ctx.pool_account.amount < amount {
        ctx.global_state.is_flash_loan_active = false;
        return Err(CustomError::InsufficientLiquidity);
    }
    Ok(())
}

/// Writes the record of a loan that was begun, and names the transfers
/// that go with it.
fn record_flash_loan(
    ctx: &mut FlashLoan,
    amount: u64,
    collateral_amount: u64,
    now: i64,
) -> (orders: FlashLoanOrders)
    requires
        old(ctx).fee_fits(amount),
    ensures
        final(ctx).flash_loan_state@ == (LoanRecord {
            amount: amount as nat,
            fee: fee_of(amount as nat, old(ctx).global_state.fee_rate as nat),
            start_time: now as int,
            collateral: collateral_amount as nat,
        }),
        *final(ctx) == (FlashLoan { flash_loan_state: final(ctx).flash_loan_state, ..*old(ctx) }),
        orders == old(ctx).orders(amount, collateral_amount),
{
    let collateral = if collateral_amount > 0 {
        Some(
            TransferOrder {
                context: ctx.into_transfer_collateral_context(),
                amount: collateral_amount,
            },
        )
    } else {
        None
    };
    let fee = flash_loan_fee(amount, ctx.global_state.fee_rate);
    ctx.flash_loan_state.amount = amount;
    ctx.flash_loan_state.fee = fee;
    ctx.flash_loan_state.start_time = now;
    ctx.flash_loan_state.collateral = collateral_amount;
    let principal = TransferOrder { context: ctx.into_transfer_to_borrower_context(), amount };
    FlashLoanOrders { collateral, principal }
}

/// Issues a flash loan of `amount` against `collateral_amount` at time `now`.
///
/// The loan is refused, and nothing changes, where another loan is out
/// (`FlashLoanInProgress`), where the allow-list is not empty and does not
/// name the borrower (`NotWhitelisted`), or where the pool's account holds
/// less than `amount` (`InsufficientLiquidity`); the first of these that
/// applies is reported. Otherwise the ledger has a loan out from now on, the
/// record holds principal, fee, time of issue and collateral, and the result
/// names the transfers to be made: the collateral first, if there is any,
/// then the principal.
///
/// The fee of a loan that is issued has to fit in 64 bits.
pub fn flash_loan_at(
    ctx: &mut FlashLoan,
    amount: u64,
    collateral_amount: u64,
    now: i64,
) -> (result: Result<FlashLoanOrders, CustomError>)
    requires
        old(ctx).rejection(amount) is None ==> old(ctx).fee_fits(amount),
    ensures
        match result {
            Ok(orders) => {
                &&& old(ctx).rejection(amount) is None
                &&& old(ctx).issues(amount, collateral_amount, now, *final(ctx))
                &&& orders == old(ctx).orders(amount, collateral_amount)
            },
            Err(e) => {
                &&& old(ctx).rejection(amount) == Some(e)
                &&& *final(ctx) == *old(ctx)
            },
        },
{
    match begin_flash_loan(ctx, amount) {
        Ok(()) => Ok(record_flash_loan(ctx, amount, collateral_amount, now)),
        Err(e) => Err(e),
    }
}

/// Issues a flash loan of `amount` against `collateral_amount`, stamped with
/// the time that the clock gives.
///
/// It does what [`flash_loan_at`] does at the time read. The clock is read
/// only for a loan that is not refused; where that reading fails, its error
/// is passed on and nothing changes.
pub fn flash_loan(ctx: &mut FlashLoan, amount: u64, collateral_amount: u64) -> (result: Result<
    FlashLoanOrders,
    LedgerError,
>)
    requires
        old(ctx).rejection(amount) is None ==> old(ctx).fee_fits(amount),
    ensures
        match result {
            Ok(orders) => {
                &&& old(ctx).rejection(amount) is None
                &&& old(ctx).issues(
                    amount,
                    collateral_amount,
                    final(ctx).flash_loan_state.start_time,
                    *final(ctx),
                )
                &&& orders == old(ctx).orders(amount, collateral_amount)
            },
            Err(LedgerError::Rejected(e)) => {
                &&& old(ctx).rejection(amount) == Some(e)
                &&& *final(ctx) == *old(ctx)
            },
            Err(LedgerError::Clock(_)) => {
                &&& old(ctx).rejection(amount) is None
                &&& *final(ctx) == *old(ctx)
            },
        },
{
    match begin_flash_loan(ctx, amount) {
        Ok(()) => {},
        Err(e) => {
            return Err(LedgerError::Rejected(e));
        },
    }
    match unix_timestamp() {
        Ok(now) => Ok(record_flash_loan(ctx, amount, collateral_amount, now)),
        Err(error) => {
            ctx.global_state.is_flash_loan_active = false;
            Err(LedgerError::Clock(error))
        },
    }
}

/// The accounts and records that take part in the repayment of a flash loan.
#[derive(Clone, Debug, PartialEq, Eq)]
pub struct RepayFlashLoan {
    pub global_state: GlobalState,
    pub pool_account: TokenAccount,
    /// The party that signs for the pool.
    pub pool_authority: Identity,
    /// The record of the loan that is repaid.
    pub flash_loan_state: FlashLoanState,
    pub borrower: Identity,
    /// The borrower's reputation, created where the borrower had none.
    pub borrower_reputation: BorrowerReputation,
    pub token_program: Identity,
}

/// What a repayment asks of the store that keeps the records: the record of
/// the loan is to be destroyed, and what backed it goes to `recipient`.
#[derive(Clone, Copy, Debug, PartialEq, Eq)]
pub struct RecordClosure {
    pub recipient: Identity,
}

impl RepayFlashLoan {
    /// Whether the loan can no longer be repaid at `now`.
    pub open spec fn spec_expired(&self, now: i64) -> bool {
        expired_at(self.flash_loan_state.start_time as int, now as int)
    }

    /// Tells whether the loan can no longer be repaid at `now`.
    #[verifier::when_used_as_spec(spec_expired)]
    pub fn expired(&self, now: i64) -> (expired: bool)
        ensures
            expired == self.spec_expired(now),
    {
        is_expired(self.flash_loan_state.start_time, now)
    }

    /// Whether `after` is what the repayment of the loan makes of `self`: the
    /// fee of the loan is added to the fees of the ledger, no loan is out any
    /// more, the reputation is the borrower's and one higher, and nothing
    /// else has changed.
    pub open spec fn settles(&self, after: RepayFlashLoan) -> bool {
        &&& after.global_state@ == self.global_state@.settle_loan(self.flash_loan_state.fee as nat)
        &&& after.borrower_reputation@ == self.borrower_reputation@.credit(self.borrower)
        &&& after == (RepayFlashLoan {
            global_state: after.global_state,
            borrower_reputation: after.borrower_reputation,
            ..*self
        })
    }

    /// Whether the counters that a repayment raises have room for it.
    pub open spec fn spec_has_room(&self) -> bool {
        &&& self.global_state.accumulated_fees + self.flash_loan_state.fee <= u64::MAX
        &&& self.borrower_reputation.reputation + 1 <= u64::MAX
    }

    /// Tells whether the counters that a repayment raises have room for it.
    #[verifier::when_used_as_spec(spec_has_room)]
    pub fn has_room(&self) -> (room: bool)
        ensures
            room == self.spec_has_room(),
    {
        self.global_state.accumulated_fees <= u64::MAX - self.flash_loan_state.fee
            && self.borrower_reputation.reputation < u64::MAX
    }
}

/// Books the fee of the loan, marks the ledger as idle and raises the
/// borrower's reputation by one.
fn settle_flash_loan(ctx: &mut RepayFlashLoan) -> (closure: RecordClosure)
    requires
        old(ctx).has_room(),
    ensures
        old(ctx).settles(*final(ctx)),
        closure.recipient == old(ctx).borrower,
{
    ctx.global_state.accumulated_fees = ctx.global_state.accumulated_fees + ctx.flash_loan_state.fee;
    ctx.global_state.is_flash_loan_active = false;
    ctx.borrower_reputation.borrower = ctx.borrower;
    ctx.borrower_reputation.reputation = ctx.borrower_reputation.reputation + 1;
    RecordClosure { recipient: ctx.borrower }
}

/// Repays the flash loan at time `now`.
///
/// More than [`REPAYMENT_WINDOW`] seconds after its issue the loan is
/// `FlashLoanExpired`: the repayment is refused and nothing changes. Within
/// the window the repayment always goes through: the fee of the loan is
/// added to the fees of the ledger, the ledger is idle again, the
/// reputation record is made out to the borrower and raised by one, and the
/// result asks for the record of the loan to be closed in the borrower's
/// favour.
///
/// The two counters that a repayment raises must have room for it.
pub fn repay_flash_loan_at(ctx: &mut RepayFlashLoan, now: i64) -> (result: Result<
    RecordClosure,
    CustomError,
>)
    requires
        !old(ctx).expired(now) ==> old(ctx).has_room(),
    ensures
        match result {
            Ok(closure) => {
                &&& !old(ctx).expired(now)
                &&& old(ctx).settles(*final(ctx))
                &&& closure.recipient == old(ctx).borrower
            },
            Err(e) => {
                &&& e == CustomError::FlashLoanExpired
                &&& old(ctx).expired(now)
                &&& *final(ctx) == *old(ctx)
            },
        },
{
    if ctx.expired(now) {
        return Err(CustomError::FlashLoanExpired);
    }
    Ok(settle_flash_loan(ctx))
}

/// Repays the flash loan at the time that the clock gives.
///
/// It does what [`repay_flash_loan_at`] does at the time read. Where the
/// clock cannot be read, its error is passed on and nothing changes.
pub fn repay_flash_loan(ctx: &mut RepayFlashLoan) -> (result: Result<RecordClosure, LedgerError>)
    requires
        old(ctx).has_room(),
    ensures
        match result {
            Ok(closure) => {
                &&& old(ctx).settles(*final(ctx))
                &&& closure.recipient == old(ctx).borrower
            },
            Err(LedgerError::Rejected(e)) => {
                &&& e == CustomError::FlashLoanExpired
                &&& *final(ctx) == *old(ctx)
            },
            Err(LedgerError::Clock(_)) => *final(ctx) == *old(ctx),
        },
{
    match unix_timestamp() {
        Ok(now) => match repay_flash_loan_at(ctx, now) {
            Ok(closure) => Ok(closure),
            Err(e) => Err(LedgerError::Rejected(e)),
        },
        Err(error) => Err(LedgerError::Clock(error)),
    }
}

/// The accounts that a loan across several pools would take part in.
#[derive(Clone, Debug, PartialEq, Eq)]
pub struct MultiHopFlashLoan {
    pub global_state: GlobalState,
    pub token_program: Identity,
}

/// Reserved for loans that run across several pools. It is there to be
/// called and has no effect.
pub fn multi_hop_flash_loan(ctx: &mut MultiHopFlashLoan, amounts: Vec<u64>)
    ensures
        *final(ctx) == *old(ctx),
{
}

/// The fee is the product of amount and rate, divided by ten thousand and
/// rounded down.
pub proof fn lemma_fee_is_floor(amount: nat, fee_rate: nat)
    ensures
        fee_of(amount, fee_rate) * 10000 <= amount * fee_rate < (fee_of(amount, fee_rate) + 1)
            * 10000,
{
    let product = amount * fee_rate;
    assert(product == 10000 * (product / 10000) + product % 10000 && 0 <= product % 10000
        < 10000) by (nonlinear_arith);
}

/// At a rate of no more than the whole, ten thousand basis points, the fee
/// is no more than the amount, and so fits wherever the amount does.
pub proof fn lemma_fee_within_amount(amount: nat, fee_rate: nat)
    requires
        fee_rate <= 10000,
    ensures
        fee_of(amount, fee_rate) <= amount,
{
    assert((amount * fee_rate) / 10000 <= amount) by (nonlinear_arith)
        requires
            fee_rate <= 10000,
    ;
}

/// A loan can be repaid up to thirty seconds after its issue, and no later.
pub proof fn lemma_repayment_window(start_time: int, now: int)
    ensures
        now - start_time <= 30 ==> !expired_at(start_time, now),
        now - start_time >= 31 ==> expired_at(start_time, now),
{
}

/// At a rate of no more than the whole, a loan of any amount can be issued as
/// far as its fee goes.
pub proof fn lemma_fee_fits_up_to_the_whole(ctx: FlashLoan, amount: u64)
    requires
        ctx.global_state.fee_rate <= 10000,
    ensures
        ctx.fee_fits(amount),
{
    lemma_fee_within_amount(amount as nat, ctx.global_state.fee_rate as nat);
}

/// While a loan is out no other is issued: once `first` has issued a loan,
/// any request on the same ledger is refused with `FlashLoanInProgress`,
/// whoever asks and for whatever amount.
pub proof fn lemma_one_loan_at_a_time(
    first: FlashLoan,
    amount: u64,
    collateral_amount: u64,
    now: i64,
    issued: FlashLoan,
    second: FlashLoan,
    second_amount: u64,
)
    requires
        first.issues(amount, collateral_amount, now, issued),
        second.global_state@ == issued.global_state@,
    ensures
        second.rejection(second_amount) == Some(CustomError::FlashLoanInProgress),
{
}

/// With an allow-list that is not empty, a borrower that it does not name is
/// refused with `NotWhitelisted` whenever no loan is out.
pub proof fn lemma_allow_list_gates(ctx: FlashLoan, amount: u64)
    requires
        !ctx.global_state.is_flash_loan_active,
        ctx.global_state@.whitelist.len() > 0,
        !ctx.global_state@.whitelist.contains(ctx.borrower),
    ensures
        ctx.rejection(amount) == Some(CustomError::NotWhitelisted),
{
}

/// A loan that is issued and repaid within its window leaves the ledger as
/// it was before the loan, but for the fee that it has earned; and the
/// borrower's reputation is one higher.
pub proof fn lemma_repaid_loan_earns_its_fee(
    first: FlashLoan,
    amount: u64,
    collateral_amount: u64,
    issued_at: i64,
    issued: FlashLoan,
    repayment: RepayFlashLoan,
    now: i64,
    settled: RepayFlashLoan,
)
    requires
        first.rejection(amount) is None,
        first.issues(amount, collateral_amount, issued_at, issued),
        repayment.global_state@ == issued.global_state@,
        repayment.flash_loan_state == issued.flash_loan_state,
        now - issued_at <= 30,
        repayment.settles(settled),
    ensures
        !repayment.expired(now),
        settled.global_state@ == (Ledger {
            accumulated_fees: first.global_state@.accumulated_fees + fee_of(
                amount as nat,
                first.global_state@.fee_rate,
            ),
            ..first.global_state@
        }),
        !settled.global_state.is_flash_loan_active,
        settled.borrower_reputation@.borrower == repayment.borrower,
        settled.borrower_reputation@.reputation == repayment.borrower_reputation@.reputation + 1,
{
}

/// The flash credit of the ledger as a whole: the ledger and the record of
/// the loan that is out, if one is.
pub struct CreditDesk {
    pub ledger: Ledger,
    pub loan: Option<LoanRecord>,
}

/// One step in the life of the flash credit: a borrower asks for a loan on a
/// pool of some balance, or the loan that is out is to be repaid.
pub enum CreditOp {
    Issue { borrower: Identity, pool_balance: nat, amount: nat, collateral: nat, now: int },
    Repay { now: int },
}

impl CreditDesk {
    /// Whether flag and record agree: the ledger is marked as having a loan
    /// out exactly when there is the record of one.
    pub open spec fn consistent(self) -> bool {
        self.ledger.flash_loan_active <==> self.loan is Some
    }

    /// The desk after `op` was asked for: changed where the ledger goes along
    /// with it, as it was where the ledger refuses.
    pub open spec fn apply(self, op: CreditOp) -> CreditDesk {
        match op {
            CreditOp::Issue { borrower, pool_balance, amount, collateral, now } => {
                if self.ledger.loan_rejection(borrower, pool_balance, amount) is None {
                    CreditDesk {
                        ledger: self.ledger.open_loan(),
                        loan: Some(
                            LoanRecord {
                                amount,
                                fee: fee_of(amount, self.ledger.fee_rate),
                                start_time: now,
                                collateral,
                            },
                        ),
                    }
                } else {
                    self
                }
            },
            CreditOp::Repay { now } => match self.loan {
                Some(record) => if expired_at(record.start_time, now) {
                    self
                } else {
                    CreditDesk { ledger: self.ledger.settle_loan(record.fee), loan: None }
                },
                None => self,
            },
        }
    }

    /// The desk after all of `ops` were asked for, one after the other.
    pub open spec fn run(self, ops: Seq<CreditOp>) -> CreditDesk
        decreases ops.len(),
    {
        if ops.len() == 0 {
            self
        } else {
            self.run(ops.drop_last()).apply(ops.last())
        }
    }
}

/// Whatever loans are asked for and repaid, in whatever order: flag and
/// record keep agreeing, so that there is never more than the one loan; the
/// fees of the ledger never fall; and nothing but flag and fees changes in
/// the ledger.
pub proof fn lemma_one_loan_or_none(desk: CreditDesk, ops: Seq<CreditOp>)
    requires
        desk.consistent(),
    ensures
        desk.run(ops).consistent(),
        desk.run(ops).ledger.accumulated_fees >= desk.ledger.accumulated_fees,
        desk.run(ops).ledger == (Ledger {
            flash_loan_active: desk.run(ops).ledger.flash_loan_active,
            accumulated_fees: desk.run(ops).ledger.accumulated_fees,
            ..desk.ledger
        }),
    decreases ops.len(),
{
    if ops.len() > 0 {
        lemma_one_loan_or_none(desk, ops.drop_last());
    }
}

/// While a loan is out, asking for another changes nothing: not the ledger,
/// and not the record of the loan that is out.
pub proof fn lemma_issue_while_active_changes_nothing(
    desk: CreditDesk,
    borrower: Identity,
    pool_balance: nat,
    amount: nat,
    collateral: nat,
    now: int,
)
    requires
        desk.ledger.flash_loan_active,
    ensures
        desk.ledger.loan_rejection(borrower, pool_balance, amount) == Some(
            CustomError::FlashLoanInProgress,
        ),
        desk.apply(CreditOp::Issue { borrower, pool_balance, amount, collateral, now }) == desk,
{
}

/// The issue of a loan is a step of the desk: where the ledger is idle and
/// issues the loan, the desk goes from no record to the record that was
/// written.
pub proof fn lemma_issue_steps_the_desk(
    ctx: FlashLoan,
    amount: u64,
    collateral_amount: u64,
    now: i64,
    after: FlashLoan,
)
    requires
        ctx.rejection(amount) is None,
        ctx.issues(amount, collateral_amount, now, after),
    ensures
        (CreditDesk { ledger: ctx.global_state@, loan: None }).consistent(),
        (CreditDesk { ledger: ctx.global_state@, loan: None }).apply(
            CreditOp::Issue {
                borrower: ctx.borrower,
                pool_balance: ctx.pool_account.amount as nat,
                amount: amount as nat,
                collateral: collateral_amount as nat,
                now: now as int,
            },
        ) == (CreditDesk { ledger: after.global_state@, loan: Some(after.flash_loan_state@) }),
{
}

/// The repayment of a loan is a step of the desk: where it goes through, the
/// desk goes from the record of the loan to no record; where the loan has
/// expired, the desk stays as it is.
pub proof fn lemma_repay_steps_the_desk(ctx: RepayFlashLoan, now: i64, after: RepayFlashLoan)
    requires
        ctx.expired(now) ==> after == ctx,
        !ctx.expired(now) ==> ctx.settles(after),
    ensures
        (CreditDesk { ledger: ctx.global_state@, loan: Some(ctx.flash_loan_state@) }).apply(
            CreditOp::Repay { now: now as int },
        ) == (CreditDesk {
            ledger: after.global_state@,
            loan: if ctx.expired(now) {
                Some(ctx.flash_loan_state@)
            } else {
                None
            },
        }),
{
}

} // verus!
