//! The entry points of the game that pays on a claim: each checks, then
//! acts.

use crate::actions::claim_reward::{Claim, ClaimReward};
use crate::actions::consume_randomness::{ConsumeRandomness, ConsumeRandomnessParams, Settlement};
use crate::actions::init_client::{InitClient, InitClientParams};
use crate::actions::init_vrf::{InitVrf, InitVrfParams};
use crate::actions::request_randomness::{RequestRandomness, RequestRandomnessParams};
use crate::error::{GameError, OracleUnavailable};
use crate::events::{RandomnessRequested, VrfClientCreated};
use vstd::prelude::*;

verus! {

/// Creates a match at time `now`: the owner's stake goes into escrow.
///
/// Fails, with nothing changed, when the oracle account's authority is not
/// the client state, when the bound is above the cap, or when the ledger
/// refuses the stake.
pub fn init_client(ctx: &mut InitClient, params: InitClientParams, now: i64) -> (out: Result<
    VrfClientCreated,
    GameError,
>)
    ensures
        out == old(ctx).outcome(params.max_result, params.bet_amount, now),
        *final(ctx) == old(ctx).after(params.max_result, params.choice, params.bet_amount, now),
{
    crate::vrf_client::init_client(ctx, params, now)
}

/// Records which oracle account the payer set up. The client state that is
/// allocated along with the record is left as it is.
pub fn init_vrf(ctx: &mut InitVrf, params: InitVrfParams) -> (out: Result<(), GameError>)
    ensures
        out == Ok::<(), GameError>(()),
        *final(ctx) == old(ctx).after(),
{
    if let Err(code) = ctx.validate(&params) {
        return Err(GameError::Client(code));
    }
    InitVrf::actuate(ctx, &params)
}

/// Joins a match at time `now`, given in `requested` what the oracle
/// answered to the request for a draw: the second stake goes into escrow.
///
/// Fails, with nothing changed, when the oracle account is not the one the
/// client state is bound to, when the match is not open, when the oracle did
/// not take the request, or when the ledger refuses the stake.
pub fn request_randomness(
    ctx: &mut RequestRandomness,
    params: RequestRandomnessParams,
    requested: Result<(), OracleUnavailable>,
    now: i64,
) -> (out: Result<RandomnessRequested, GameError>)
    ensures
        out == old(ctx).outcome(requested, now),
        *final(ctx) == old(ctx).after(requested, now),
{
    crate::vrf_client::request_randomness(ctx, params, requested, now)
}

/// Settles a match at time `now` with the buffer the oracle account holds:
/// winner and result are recorded, and the pot stays in escrow for the
/// winner to claim.
///
/// Changes nothing while the oracle has delivered nothing new, while nobody
/// has joined, and once the match is over. Fails, with nothing changed, when
/// the oracle account is not the one the client state is bound to.
pub fn consume_randomness(
    ctx: &mut ConsumeRandomness,
    _params: ConsumeRandomnessParams,
    now: i64,
) -> (out: Result<Settlement, GameError>)
    requires
        old(ctx).drawing() ==> old(ctx).state.max_result >= 1,
    ensures
        out == old(ctx).deferred_outcome(now),
        *final(ctx) == old(ctx).after_deferred(now),
{
    if let Err(code) = ctx.validate() {
        return Err(GameError::Client(code));
    }
    ConsumeRandomness::actuate_deferred(ctx, now)
}

/// Pays the pot to the claimant if the claimant is the winner and the pot
/// was not paid; tells a claimant who is not the winner that there is
/// nothing to claim.
///
/// Fails, with nothing changed, when the ledger refuses the release.
pub fn claim_reward(ctx: &mut ClaimReward) -> (out: Result<Claim, GameError>)
    ensures
        out == old(ctx).outcome(),
        *final(ctx) == old(ctx).after(),
{
    if let Err(code) = ctx.validate() {
        return Err(GameError::Client(code));
    }
    ClaimReward::actuate(ctx)
}

} // verus!
