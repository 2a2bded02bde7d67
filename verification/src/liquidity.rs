//! Liquidity: providers deposit into the pool and withdraw from it.

use vstd::prelude::*;
use crate::error::CustomError;
use crate::gateway::{TokenAccount, TransferContext, TransferOrder};
use crate::identity::Identity;
use crate::state::{GlobalState, Ledger};

verus! {

/// The accounts and records that take part in a deposit.
#[derive(Clone, Debug, PartialEq, Eq)]
pub struct DepositLiquidity {
    pub global_state: GlobalState,
    pub provider: Identity,
    pub provider_token_account: TokenAccount,
    /// The pool's token account.
    pub pool_account: TokenAccount,
    pub token_program: Identity,
}

impl DepositLiquidity {
    /// The route into the pool: out of the provider's account, signed by the
    /// provider.
    pub open spec fn pool_route(&self) -> TransferContext {
        TransferContext {
            program: self.token_program,
            from: self.provider_token_account.key,
            to: self.pool_account.key,
            authority: self.provider,
        }
    }

    /// The route along which a deposit goes into the pool.
    pub fn into_transfer_to_pool_context(&self) -> (route: TransferContext)
        ensures
            route == self.pool_route(),
    {
        TransferContext {
            program: self.token_program,
            from: self.provider_token_account.key,
            to: self.pool_account.key,
            authority: self.provider,
        }
    }

    /// Whether the liquidity of the ledger has room for `amount` more.
    pub open spec fn spec_has_room(&self, amount: u64) -> bool {
        self.global_state.total_liquidity + amount <= u64::MAX
    }

    /// Tells whether the liquidity of the ledger has room for `amount` more.
    #[verifier::when_used_as_spec(spec_has_room)]
    pub fn has_room(&self, amount: u64) -> (room: bool)
        ensures
            room == self.spec_has_room(amount),
    {
        self.global_state.total_liquidity <= u64::MAX - amount
    }

    /// Whether `after` is what a deposit of `amount` makes of `self`: the
    /// liquidity of the ledger is `amount` higher and nothing else has
    /// changed.
    pub open spec fn deposits(&self, amount: u64, after: DepositLiquidity) -> bool {
        &&& after.global_state@ == self.global_state@.deposit(amount as nat)
        &&& after == (DepositLiquidity { global_state: after.global_state, ..*self })
    }
}

/// Deposits `amount` into the pool.
///
/// The liquidity of the ledger rises by `amount`, and the result names the
/// transfer into the pool.
///
/// The liquidity must have room for `amount`.
pub fn deposit_liquidity(ctx: &mut DepositLiquidity, amount: u64) -> (order: TransferOrder)
    requires
        old(ctx).has_room(amount),
    ensures
        old(ctx).deposits(amount, *final(ctx)),
        order == (TransferOrder { context: old(ctx).pool_route(), amount }),
        final(ctx).global_state@ == old(ctx).global_state@.apply_liquidity(
            LiquidityOp::Deposit(amount as nat),
        ),
{
    ctx.global_state.total_liquidity = ctx.global_state.total_liquidity + amount;
    TransferOrder { context: ctx.into_transfer_to_pool_context(), amount }
}

/// The accounts and records that take part in a withdrawal.
#[derive(Clone, Debug, PartialEq, Eq)]
pub struct WithdrawLiquidity {
    pub global_state: GlobalState,
    /// The pool's token account.
    pub pool_account: TokenAccount,
    pub provider_token_account: TokenAccount,
    /// The party that signs for the pool.
    pub pool_authority: Identity,
    pub token_program: Identity,
}

impl WithdrawLiquidity {
    /// The route out of the pool: into the provider's account, signed by the
    /// pool's authority.
    pub open spec fn pool_route(&self) -> TransferContext {
        TransferContext {
            program: self.token_program,
            from: self.pool_account.key,
            to: self.provider_token_account.key,
            authority: self.pool_authority,
        }
    }

    /// The route along which a withdrawal comes out of the pool.
    pub fn into_transfer_from_pool_context(&self) -> (route: TransferContext)
        ensures
            route == self.pool_route(),
    {
        TransferContext {
            program: self.token_program,
            from: self.pool_account.key,
            to: self.provider_token_account.key,
            authority: self.pool_authority,
        }
    }

    /// Whether `after` is what a withdrawal of `amount` makes of `self`: the
    /// liquidity of the ledger is `amount` lower and nothing else has
    /// changed.
    pub open spec fn withdraws(&self, amount: u64, after: WithdrawLiquidity) -> bool {
        &&& after.global_state@ == self.global_state@.withdraw(amount as nat)
        &&& after == (WithdrawLiquidity { global_state: after.global_state, ..*self })
    }
}

/// Withdraws `amount` from the pool.
///
/// More than the liquidity of the ledger is refused with
/// `InsufficientLiquidity`, and nothing changes. Otherwise the liquidity
/// falls by `amount`, and the result names the transfer out of the pool.
pub fn withdraw_liquidity(ctx: &mut WithdrawLiquidity, amount: u64) -> (result: Result<
    TransferOrder,
    CustomError,
>)
    ensures
        match result {
            Ok(order) => {
                &&& amount <= old(ctx).global_state.total_liquidity
                &&& old(ctx).withdraws(amount, *final(ctx))
                &&& order == (TransferOrder { context: old(ctx).pool_route(), amount })
            },
            Err(e) => {
                &&& e == CustomError::InsufficientLiquidity
                &&& amount > old(ctx).global_state.total_liquidity
                &&& *final(ctx) == *old(ctx)
            },
        },
        result is Ok <==> old(ctx).global_state@.accepts_liquidity(
            LiquidityOp::Withdraw(amount as nat),
        ),
        final(ctx).global_state@ == old(ctx).global_state@.apply_liquidity(
            LiquidityOp::Withdraw(amount as nat),
        ),
{
    if ctx.global_state.total_liquidity < amount {
        return Err(CustomError::InsufficientLiquidity);
    }
    ctx.global_state.total_liquidity = ctx.global_state.total_liquidity - amount;
    Ok(TransferOrder { context: ctx.into_transfer_from_pool_context(), amount })
}

/// One step in the life of the pool: a provider asks to deposit or to
/// withdraw an amount.
pub enum LiquidityOp {
    Deposit(nat),
    Withdraw(nat),
}

impl Ledger {
    /// Whether the ledger goes along with `op`: every deposit, and a
    /// withdrawal of no more than the liquidity there is.
    pub open spec fn accepts_liquidity(self, op: LiquidityOp) -> bool {
        match op {
            LiquidityOp::Deposit(_) => true,
            LiquidityOp::Withdraw(amount) => amount <= self.total_liquidity,
        }
    }

    /// The ledger after `op` was asked for: changed where the ledger goes
    /// along with it, as it was where it refuses.
    pub open spec fn apply_liquidity(self, op: LiquidityOp) -> Ledger {
        match op {
            LiquidityOp::Deposit(amount) => self.deposit(amount),
            LiquidityOp::Withdraw(amount) => if amount <= self.total_liquidity {
                self.withdraw(amount)
            } else {
                self
            },
        }
    }

    /// The ledger after all of `ops` were asked for, one after the other.
    pub open spec fn run_liquidity(self, ops: Seq<LiquidityOp>) -> Ledger
        decreases ops.len(),
    {
        if ops.len() == 0 {
            self
        } else {
            self.run_liquidity(ops.drop_last()).apply_liquidity(ops.last())
        }
    }
}

/// The net deposits of `ops` into a pool that began with `pool`: each deposit
/// counts up, each withdrawal that the pool could serve when it came counts
/// down, and a withdrawal that it could not serve counts nothing.
pub open spec fn net_deposits(pool: nat, ops: Seq<LiquidityOp>) -> int
    decreases ops.len(),
{
    if ops.len() == 0 {
        0
    } else {
        let before = net_deposits(pool, ops.drop_last());
        match ops.last() {
            LiquidityOp::Deposit(amount) => before + amount,
            LiquidityOp::Withdraw(amount) => if amount <= pool + before {
                before - amount
            } else {
                before
            },
        }
    }
}

/// Whatever deposits and withdrawals are asked for, in whatever order, the
/// liquidity of the ledger is what it was plus the net deposits, it never
/// falls below zero, and nothing else in the ledger changes.
pub proof fn lemma_liquidity_is_net_deposits(ledger: Ledger, ops: Seq<LiquidityOp>)
    ensures
        ledger.run_liquidity(ops).total_liquidity == ledger.total_liquidity + net_deposits(
            ledger.total_liquidity,
            ops,
        ),
        ledger.total_liquidity + net_deposits(ledger.total_liquidity, ops) >= 0,
        ledger.run_liquidity(ops) == (Ledger {
            total_liquidity: ledger.run_liquidity(ops).total_liquidity,
            ..ledger
        }),
    decreases ops.len(),
{
    if ops.len() > 0 {
        lemma_liquidity_is_net_deposits(ledger, ops.drop_last());
    }
}

/// A withdrawal of more than the liquidity there is changes nothing, at
/// whatever point of a history it is asked for.
pub proof fn lemma_overdrawn_withdrawal_changes_nothing(ledger: Ledger, amount: nat)
    requires
        amount > ledger.total_liquidity,
    ensures
        !ledger.accepts_liquidity(LiquidityOp::Withdraw(amount)),
        ledger.apply_liquidity(LiquidityOp::Withdraw(amount)) == ledger,
{
}

} // verus!
