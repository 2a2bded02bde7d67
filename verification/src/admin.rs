//! Administration: the ledger is set up once, and its administrator may
//! change the fee rate.

use vstd::prelude::*;
use crate::error::CustomError;
use crate::identity::Identity;
use crate::state::{GlobalState, Ledger};

verus! {

/// The record and the parties that take part in setting up the ledger.
#[derive(Clone, Debug, PartialEq, Eq)]
pub struct Initialize {
    /// The ledger, newly created.
    pub global_state: GlobalState,
    /// The caller, who becomes the administrator.
    pub admin: Identity,
    /// The account to which fees are to be redistributed.
    pub treasury: Identity,
}

/// Sets up the ledger with `fee_rate` basis points as its fee.
///
/// The caller becomes the administrator, the treasury is recorded, every
/// total is zero, no loan is out and the allow-list is empty.
pub fn initialize(ctx: &mut Initialize, fee_rate: u64)
    ensures
        final(ctx).global_state@ == Ledger::genesis(
            old(ctx).admin,
            old(ctx).treasury,
            fee_rate as nat,
        ),
        *final(ctx) == (Initialize { global_state: final(ctx).global_state, ..*old(ctx) }),
{
    ctx.global_state.admin = ctx.admin;
    ctx.global_state.fee_rate = fee_rate;
    ctx.global_state.total_liquidity = 0;
    ctx.global_state.total_staked = 0;
    ctx.global_state.accumulated_fees = 0;
    ctx.global_state.is_flash_loan_active = false;
    ctx.global_state.treasury_account = ctx.treasury;
    ctx.global_state.flash_loan_whitelist = Vec::new();
}

/// The record and the party that take part in a change of the fee rate.
#[derive(Clone, Debug, PartialEq, Eq)]
pub struct UpdateFeeRate {
    pub global_state: GlobalState,
    /// The caller.
    pub admin: Identity,
}

/// Replaces the fee rate of the ledger by `new_fee_rate` basis points.
///
/// Anybody but the administrator that the ledger records is `Unauthorized`,
/// and nothing changes. The new rate is taken as it is, whatever its size.
pub fn update_fee_rate(ctx: &mut UpdateFeeRate, new_fee_rate: u64) -> (result: Result<
    (),
    CustomError,
>)
    ensures
        match result {
            Ok(()) => {
                &&& old(ctx).admin == old(ctx).global_state.admin
                &&& final(ctx).global_state@ == old(ctx).global_state@.with_fee_rate(
                    new_fee_rate as nat,
                )
                &&& *final(ctx) == (UpdateFeeRate {
                    global_state: final(ctx).global_state,
                    ..*old(ctx)
                })
            },
            Err(e) => {
                &&& e == CustomError::Unauthorized
                &&& old(ctx).admin != old(ctx).global_state.admin
                &&& *final(ctx) == *old(ctx)
            },
        },
{
    if ctx.global_state.admin != ctx.admin {
        return Err(CustomError::Unauthorized);
    }
    ctx.global_state.fee_rate = new_fee_rate;
    Ok(())
}

} // verus!
