//! Staking: each party keeps a stake of its own, and the ledger keeps the
//! total of them all.

use vstd::prelude::*;
use crate::clock::unix_timestamp;
use crate::error::{CustomError, LedgerError};
use crate::gateway::{TokenAccount, TransferContext, TransferOrder};
use crate::identity::Identity;
use crate::state::{GlobalState, Ledger, StakePosition, UserStake};

verus! {

/// The accounts and records that take part when a party stakes.
#[derive(Clone, Debug, PartialEq, Eq)]
pub struct Stake {
    pub global_state: GlobalState,
    pub user: Identity,
    /// The party's stake, created where the party had none.
    pub user_stake: UserStake,
    pub user_token_account: TokenAccount,
    /// The account that holds what is staked.
    pub stake_vault: TokenAccount,
    /// The party that signs for the vault.
    pub stake_vault_authority: Identity,
    pub token_program: Identity,
}

impl Stake {
    /// The route into the vault: out of the party's account, signed by the
    /// party.
    pub open spec fn stake_route(&self) -> TransferContext {
        TransferContext {
            program: self.token_program,
            from: self.user_token_account.key,
            to: self.stake_vault.key,
            authority: self.user,
        }
    }

    /// The route along which a stake goes into the vault.
    pub fn into_transfer_to_stake_context(&self) -> (route: TransferContext)
        ensures
            route == self.stake_route(),
    {
        TransferContext {
            program: self.token_program,
            from: self.user_token_account.key,
            to: self.stake_vault.key,
            authority: self.user,
        }
    }

    /// Whether the party's stake and the total have room for `amount` more.
    pub open spec fn spec_has_room(&self, amount: u64) -> bool {
        &&& self.user_stake.amount + amount <= u64::MAX
        &&& self.global_state.total_staked + amount <= u64::MAX
    }

    /// Tells whether the party's stake and the total have room for `amount`
    /// more.
    #[verifier::when_used_as_spec(spec_has_room)]
    pub fn has_room(&self, amount: u64) -> (room: bool)
        ensures
            room == self.spec_has_room(amount),
    {
        self.user_stake.amount <= u64::MAX - amount && self.global_state.total_staked <= u64::MAX
            - amount
    }

    /// Whether `after` is what staking `amount` at time `now` makes of
    /// `self`: the party's stake and the total are both `amount` higher, a
    /// stake that was empty is stamped with `now`, and nothing else has
    /// changed.
    pub open spec fn stakes(&self, amount: u64, now: i64, after: Stake) -> bool {
        &&& after.user_stake@ == self.user_stake@.stake(amount as nat, now as int)
        &&& after.global_state@ == self.global_state@.stake(amount as nat)
        &&& after == (Stake {
            global_state: after.global_state,
            user_stake: after.user_stake,
            ..*self
        })
    }

    /// The transfer that goes with staking `amount`.
    pub open spec fn order(&self, amount: u64) -> TransferOrder {
        TransferOrder { context: self.stake_route(), amount }
    }
}

/// Adds `amount` to the party's stake and to the total.
fn credit_stake(ctx: &mut Stake, amount: u64) -> (order: TransferOrder)
    requires
        old(ctx).has_room(amount),
    ensures
        old(ctx).stakes(amount, old(ctx).user_stake.last_stake_timestamp, *final(ctx)),
        order == old(ctx).order(amount),
{
    ctx.user_stake.amount = ctx.user_stake.amount + amount;
    ctx.global_state.total_staked = ctx.global_state.total_staked + amount;
    TransferOrder { context: ctx.into_transfer_to_stake_context(), amount }
}

/// Stakes `amount` for the party at time `now`.
///
/// The party's stake and the total of all stakes both rise by `amount`. A
/// stake that held nothing, newly created or emptied before, takes `now` as
/// the time at which it began; any other keeps its time. The result names the
/// transfer into the vault.
///
/// Both counters must have room for `amount`.
pub fn stake_at(ctx: &mut Stake, amount: u64, now: i64) -> (order: TransferOrder)
    requires
        old(ctx).has_room(amount),
    ensures
        old(ctx).stakes(amount, now, *final(ctx)),
        order == old(ctx).order(amount),
{
    if ctx.user_stake.amount == 0 {
        ctx.user_stake.last_stake_timestamp = now;
    }
    credit_stake(ctx, amount)
}

/// Stakes `amount` for the party, stamping a stake that held nothing with the
/// time that the clock gives.
///
/// It does what [`stake_at`] does at the time read. The clock is read only
/// for a stake that holds nothing; where that reading fails, its error is
/// passed on and nothing changes. Staking on top of a stake that holds
/// something always goes through.
pub fn stake(ctx: &mut Stake, amount: u64) -> (result: Result<TransferOrder, LedgerError>)
    requires
        old(ctx).has_room(amount),
    ensures
        match result {
            Ok(order) => {
                &&& old(ctx).stakes(amount, final(ctx).user_stake.last_stake_timestamp, *final(ctx))
                &&& order == old(ctx).order(amount)
            },
            Err(e) => {
                &&& e is Clock
                &&& old(ctx).user_stake.amount == 0
                &&& *final(ctx) == *old(ctx)
            },
        },
{
    if ctx.user_stake.amount == 0 {
        match unix_timestamp() {
            Ok(now) => {
                ctx.user_stake.last_stake_timestamp = now;
            },
            Err(error) => {
                return Err(LedgerError::Clock(error));
            },
        }
    }
    Ok(credit_stake(ctx, amount))
}

/// The accounts and records that take part when a party unstakes.
#[derive(Clone, Debug, PartialEq, Eq)]
pub struct Unstake {
    pub global_state: GlobalState,
    pub user: Identity,
    pub user_stake: UserStake,
    /// The account that holds what is staked.
    pub stake_vault: TokenAccount,
    /// The party that signs for the vault.
    pub stake_vault_authority: Identity,
    pub user_token_account: TokenAccount,
    pub token_program: Identity,
}

impl Unstake {
    /// The route out of the vault: into the party's account, signed by the
    /// vault's authority.
    pub open spec fn unstake_route(&self) -> TransferContext {
        TransferContext {
            program: self.token_program,
            from: self.stake_vault.key,
            to: self.user_token_account.key,
            authority: self.stake_vault_authority,
        }
    }

    /// The route along which a stake comes back out of the vault.
    pub fn into_transfer_from_stake_context(&self) -> (route: TransferContext)
        ensures
            route == self.unstake_route(),
    {
        TransferContext {
            program: self.token_program,
            from: self.stake_vault.key,
            to: self.user_token_account.key,
            authority: self.stake_vault_authority,
        }
    }

    /// Whether `after` is what unstaking `amount` makes of `self`: the
    /// party's stake and the total are both `amount` lower, and nothing else
    /// has changed.
    pub open spec fn unstakes(&self, amount: u64, after: Unstake) -> bool {
        &&& after.user_stake@ == self.user_stake@.unstake(amount as nat)
        &&& after.global_state@ == self.global_state@.unstake(amount as nat)
        &&& after == (Unstake {
            global_state: after.global_state,
            user_stake: after.user_stake,
            ..*self
        })
    }

    /// The transfer that goes with unstaking `amount`.
    pub open spec fn order(&self, amount: u64) -> TransferOrder {
        TransferOrder { context: self.unstake_route(), amount }
    }

    /// Whether the total of all stakes covers what `amount` takes out of the
    /// party's stake. It does wherever the party's stake is part of the
    /// total.
    pub open spec fn spec_total_covers(&self, amount: u64) -> bool {
        amount <= self.user_stake.amount ==> amount <= self.global_state.total_staked
    }

    /// Tells whether the total of all stakes covers what `amount` takes out
    /// of the party's stake.
    #[verifier::when_used_as_spec(spec_total_covers)]
    pub fn total_covers(&self, amount: u64) -> (covered: bool)
        ensures
            covered == self.spec_total_covers(amount),
    {
        amount > self.user_stake.amount || amount <= self.global_state.total_staked
    }
}

/// Takes `amount` out of the party's stake.
///
/// More than the party has staked is refused with `InsufficientStake`, and
/// nothing changes. Otherwise the party's stake and the total of all stakes
/// both fall by `amount`, and the result names the transfer out of the vault.
///
/// The total must not be lower than what is taken out of it: a stake is part
/// of the total.
pub fn unstake(ctx: &mut Unstake, amount: u64) -> (result: Result<TransferOrder, CustomError>)
    requires
        old(ctx).total_covers(amount),
    ensures
        match result {
            Ok(order) => {
                &&& amount <= old(ctx).user_stake.amount
                &&& old(ctx).unstakes(amount, *final(ctx))
                &&& order == old(ctx).order(amount)
            },
            Err(e) => {
                &&& e == CustomError::InsufficientStake
                &&& amount > old(ctx).user_stake.amount
                &&& *final(ctx) == *old(ctx)
            },
        },
{
    if ctx.user_stake.amount < amount {
        return Err(CustomError::InsufficientStake);
    }
    ctx.user_stake.amount = ctx.user_stake.amount - amount;
    ctx.global_state.total_staked = ctx.global_state.total_staked - amount;
    Ok(TransferOrder { context: ctx.into_transfer_from_stake_context(), amount })
}

/// The records that a distribution of rewards would take part in.
#[derive(Clone, Debug, PartialEq, Eq)]
pub struct DistributeRewards {
    pub global_state: GlobalState,
}

/// Reserved for the distribution of rewards to those who stake. It is there
/// to be called and has no effect.
pub fn distribute_rewards(ctx: &mut DistributeRewards)
    ensures
        *final(ctx) == *old(ctx),
{
}

/// The accounts and records that a compounding of rewards would take part in.
#[derive(Clone, Debug, PartialEq, Eq)]
pub struct CompoundRewards {
    pub global_state: GlobalState,
    pub user: Identity,
    pub user_stake: UserStake,
    pub token_program: Identity,
}

/// Reserved for the reinvestment of a party's rewards. It is there to be
/// called and has no effect.
pub fn compound_rewards(ctx: &mut CompoundRewards)
    ensures
        *final(ctx) == *old(ctx),
{
}

/// One step in the life of the stakes: the party at index `party` asks to
/// stake an amount at some time, or to take an amount out.
pub enum StakeOp {
    Stake { party: int, amount: nat, now: int },
    Unstake { party: int, amount: nat },
}

impl StakeOp {
    /// The party that asks.
    pub open spec fn party(self) -> int {
        match self {
            StakeOp::Stake { party, .. } => party,
            StakeOp::Unstake { party, .. } => party,
        }
    }
}

/// The ledger together with the stake of every party.
pub struct StakeBook {
    pub ledger: Ledger,
    pub positions: Seq<StakePosition>,
}

/// What the parties of `positions` have staked, all together.
pub open spec fn staked_sum(positions: Seq<StakePosition>) -> nat
    decreases positions.len(),
{
    if positions.len() == 0 {
        0
    } else {
        staked_sum(positions.drop_last()) + positions.last().amount
    }
}

impl StakeBook {
    /// Whether the total that the ledger keeps is the sum of all stakes.
    pub open spec fn balanced(self) -> bool {
        self.ledger.total_staked == staked_sum(self.positions)
    }

    /// Whether the book goes along with `op`: the party is one of the book,
    /// and it takes out no more than it has staked.
    pub open spec fn accepts(self, op: StakeOp) -> bool {
        &&& 0 <= op.party() < self.positions.len()
        &&& match op {
            StakeOp::Stake { .. } => true,
            StakeOp::Unstake { party, amount } => amount <= self.positions[party].amount,
        }
    }

    /// The book after `op` was asked for: changed where the book goes along
    /// with it, as it was where it refuses.
    pub open spec fn apply(self, op: StakeOp) -> StakeBook {
        if !self.accepts(op) {
            self
        } else {
            match op {
                StakeOp::Stake { party, amount, now } => StakeBook {
                    ledger: self.ledger.stake(amount),
                    positions: self.positions.update(
                        party,
                        self.positions[party].stake(amount, now),
                    ),
                },
                StakeOp::Unstake { party, amount } => StakeBook {
                    ledger: self.ledger.unstake(amount),
                    positions: self.positions.update(party, self.positions[party].unstake(amount)),
                },
            }
        }
    }

    /// The book after all of `ops` were asked for, one after the other.
    pub open spec fn run(self, ops: Seq<StakeOp>) -> StakeBook
        decreases ops.len(),
    {
        if ops.len() == 0 {
            self
        } else {
            self.run(ops.drop_last()).apply(ops.last())
        }
    }
}

/// The net of what `party` staked in `ops`, beginning with a stake of
/// `staked`: what it staked counts up, what it took out counts down, and what
/// it asked to take out beyond its stake counts nothing.
pub open spec fn net_staked(party: int, staked: nat, ops: Seq<StakeOp>) -> int
    decreases ops.len(),
{
    if ops.len() == 0 {
        0
    } else {
        let before = net_staked(party, staked, ops.drop_last());
        match ops.last() {
            StakeOp::Stake { party: who, amount, .. } => if who == party {
                before + amount
            } else {
                before
            },
            StakeOp::Unstake { party: who, amount } => if who == party && amount <= staked
                + before {
                before - amount
            } else {
                before
            },
        }
    }
}

/// Replacing one stake changes the sum of all stakes by the difference.
pub proof fn lemma_staked_sum_update(
    positions: Seq<StakePosition>,
    party: int,
    position: StakePosition,
)
    requires
        0 <= party < positions.len(),
    ensures
        staked_sum(positions.update(party, position)) + positions[party].amount == staked_sum(
            positions,
        ) + position.amount,
    decreases positions.len(),
{
    let updated = positions.update(party, position);
    if party == positions.len() - 1 {
        assert(updated.drop_last() =~= positions.drop_last());
    } else {
        assert(updated.drop_last() =~= positions.drop_last().update(party, position));
        lemma_staked_sum_update(positions.drop_last(), party, position);
    }
}

/// Whatever the parties stake and take out, in whatever order: where the
/// total of the ledger was the sum of all stakes, it still is; no party
/// comes or goes; and nothing but the total changes in the ledger.
pub proof fn lemma_total_staked_is_sum_of_stakes(book: StakeBook, ops: Seq<StakeOp>)
    requires
        book.balanced(),
    ensures
        book.run(ops).balanced(),
        book.run(ops).positions.len() == book.positions.len(),
        book.run(ops).ledger == (Ledger {
            total_staked: book.run(ops).ledger.total_staked,
            ..book.ledger
        }),
    decreases ops.len(),
{
    if ops.len() > 0 {
        lemma_total_staked_is_sum_of_stakes(book, ops.drop_last());
        let before = book.run(ops.drop_last());
        let op = ops.last();
        if before.accepts(op) {
            let party = op.party();
            lemma_staked_sum_update(before.positions, party, before.apply(op).positions[party]);
        }
    }
}

/// Whatever the parties stake and take out, in whatever order, the stake of
/// each party is what it was plus the net of what that party staked, and it
/// never falls below zero.
pub proof fn lemma_stake_is_net_staked(book: StakeBook, ops: Seq<StakeOp>, party: int)
    requires
        0 <= party < book.positions.len(),
    ensures
        book.run(ops).positions.len() == book.positions.len(),
        book.run(ops).positions[party].amount == book.positions[party].amount + net_staked(
            party,
            book.positions[party].amount,
            ops,
        ),
        book.positions[party].amount + net_staked(party, book.positions[party].amount, ops) >= 0,
    decreases ops.len(),
{
    if ops.len() > 0 {
        lemma_stake_is_net_staked(book, ops.drop_last(), party);
    }
}

/// Taking out more than a party has staked changes nothing.
pub proof fn lemma_overdrawn_unstake_changes_nothing(book: StakeBook, party: int, amount: nat)
    requires
        0 <= party < book.positions.len(),
        amount > book.positions[party].amount,
    ensures
        !book.accepts(StakeOp::Unstake { party, amount }),
        book.apply(StakeOp::Unstake { party, amount }) == book,
{
}

/// Staking is a step of the book: what it makes of the party's stake and of
/// the ledger is what the book makes of them.
pub proof fn lemma_stake_steps_the_book(
    ctx: Stake,
    amount: u64,
    now: i64,
    after: Stake,
    book: StakeBook,
    party: int,
)
    requires
        0 <= party < book.positions.len(),
        book.ledger == ctx.global_state@,
        book.positions[party] == ctx.user_stake@,
        ctx.stakes(amount, now, after),
    ensures
        book.apply(StakeOp::Stake { party, amount: amount as nat, now: now as int }) == (StakeBook {
            ledger: after.global_state@,
            positions: book.positions.update(party, after.user_stake@),
        }),
{
}

/// Unstaking is a step of the book: where it goes through, what it makes of
/// the party's stake and of the ledger is what the book makes of them; and
/// the book refuses what it refuses.
pub proof fn lemma_unstake_steps_the_book(
    ctx: Unstake,
    amount: u64,
    after: Unstake,
    book: StakeBook,
    party: int,
)
    requires
        0 <= party < book.positions.len(),
        book.ledger == ctx.global_state@,
        book.positions[party] == ctx.user_stake@,
        amount <= ctx.user_stake.amount ==> ctx.unstakes(amount, after),
        amount > ctx.user_stake.amount ==> after == ctx,
    ensures
        book.accepts(StakeOp::Unstake { party, amount: amount as nat }) <==> amount
            <= ctx.user_stake.amount,
        book.apply(StakeOp::Unstake { party, amount: amount as nat }) == (StakeBook {
            ledger: after.global_state@,
            positions: book.positions.update(party, after.user_stake@),
        }),
{
    if amount > ctx.user_stake.amount {
        assert(book.positions.update(party, after.user_stake@) =~= book.positions);
    }
}

} // verus!
