//! The entry points of the game that pays with the settlement: each checks,
//! then acts.

use crate::actions::consume_randomness::{ConsumeRandomness, Settlement};
use crate::actions::init_client::{InitClient, InitClientParams};
use crate::actions::request_randomness::{RequestRandomness, RequestRandomnessParams};
use crate::error::{GameError, OracleUnavailable};
use crate::events::{RandomnessRequested, VrfClientCreated};
use vstd::prelude::*;

verus! {

/// Creates a match at time `now`: the owner's stake goes into escrow.
///
/// Fails, with nothing changed, when the oracle account's authority is not
/// the client state, when the bound is above the cap, or when the ledger
/// refuses the stake.
pub fn init_client(ctx: &mut InitClient, params: InitClientParams, now: i64) -> (out: Result<
    VrfClientCreated,
    GameError,
>)
    ensures
        out == old(ctx).outcome(params.max_result, params.bet_amount, now),
        *final(ctx) == old(ctx).after(params.max_result, params.choice, params.bet_amount, now),
{
    if let Err(code) = ctx.validate(&params) {
        return Err(GameError::Client(code));
    }
    InitClient::actuate(ctx, &params, now)
}

/// Joins a match at time `now`, given in `requested` what the oracle
/// answered to the request for a draw: the second stake goes into escrow.
///
/// Fails, with nothing changed, when the oracle account is not the one the
/// client state is bound to, when the match is not open, when the oracle did
/// not take the request, or when the ledger refuses the stake.
pub fn request_randomness(
    ctx: &mut RequestRandomness,
    params: RequestRandomnessParams,
    requested: Result<(), OracleUnavailable>,
    now: i64,
) -> (out: Result<RandomnessRequested, GameError>)
    ensures
        out == old(ctx).outcome(requested, now),
        *final(ctx) == old(ctx).after(requested, now),
{
    if let Err(code) = ctx.validate(&params) {
        return Err(GameError::Client(code));
    }
    RequestRandomness::actuate(ctx, &params, requested, now)
}

/// Settles a match at time `now` with the buffer the oracle account holds:
/// the pot goes to the winner. The nonce of the match's address is for the
/// caller who carries the payment out; the game does not read it.
///
/// Changes nothing while the oracle has delivered nothing new, while nobody
/// has joined, and once the match is over. Fails, with nothing changed, when
/// the oracle account is not the one the client state is bound to, or when
/// the ledger refuses the release.
pub fn consume_randomness(ctx: &mut ConsumeRandomness, _game_bump: u8, now: i64) -> (out: Result<
    Settlement,
    GameError,
>)
    requires
        old(ctx).drawing() ==> old(ctx).state.max_result >= 1,
    ensures
        out == old(ctx).outcome(now),
        *final(ctx) == old(ctx).after(now),
{
    if let Err(code) = ctx.validate() {
        return Err(GameError::Client(code));
    }
    ConsumeRandomness::actuate(ctx, now)
}

} // verus!
