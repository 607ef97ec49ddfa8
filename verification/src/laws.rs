//! What holds of the game as a whole, over the actions' own descriptions.

use crate::actions::claim_reward::{Claim, ClaimReward};
use crate::actions::consume_randomness::{ConsumeRandomness, Settlement};
use crate::actions::init_client::InitClient;
use crate::actions::request_randomness::RequestRandomness;
use crate::bytes::{le_value, lemma_le_value_bound, pow256};
use crate::draw::number_of;
use crate::error::{GameError, OracleUnavailable, VrfClientErrorCode};
use crate::events::VrfClientCreated;
use crate::state::{GameState, VrfClientState, MAX_RESULT};
use vstd::prelude::*;

verus! {

/// Whether two records of a match agree on what its creation fixed: owner,
/// choice, stake and time of creation.
pub open spec fn same_terms(before: GameState, after: GameState) -> bool {
    &&& after.owner == before.owner
    &&& after.owner_choice == before.owner_choice
    &&& after.bet_amount == before.bet_amount
    &&& after.room_creation_time == before.room_creation_time
}

/// The leading sixteen bytes of any buffer spell a number that fits a word
/// of 128 bits: every buffer gives a draw.
pub proof fn law_leading_bytes_fit_a_word(buffer: [u8; 32])
    ensures
        le_value(buffer@.subrange(0, 16)) <= u128::MAX,
{
    lemma_le_value_bound(buffer@.subrange(0, 16));
    assert(pow256(16) == 0x1_0000_0000_0000_0000_0000_0000_0000_0000) by {
        reveal_with_fuel(pow256, 17);
    }
}

/// A number drawn under a bound of at least 1 lies between 1 and the bound.
pub proof fn law_number_within_bound(word: nat, max_result: u64)
    requires
        max_result >= 1,
    ensures
        1 <= number_of(word, max_result) <= max_result,
{
    assert(0 <= word % (max_result as nat) < max_result) by (nonlinear_arith)
        requires
            max_result >= 1,
    ;
}

/// With the right authority on the oracle account, a creation with a bound
/// above the cap fails for that reason and changes nothing, and a creation
/// with a bound up to the cap goes through exactly when the ledger takes the
/// stake.
pub proof fn law_creation_bound(ctx: InitClient, max_result: u64, choice: u64, stake: u64, now: i64)
    requires
        ctx.vrf.authority == ctx.state_key,
    ensures
        max_result > MAX_RESULT ==> ctx.outcome(max_result, stake, now) == Err::<
            VrfClientCreated,
            GameError,
        >(GameError::Client(VrfClientErrorCode::MaxResultExceedsMaximum)) && ctx.after(
            max_result,
            choice,
            stake,
            now,
        ) == ctx,
        max_result <= MAX_RESULT ==> (ctx.outcome(max_result, stake, now) is Ok <==> ctx.deposit(
            stake,
        ) is Ok),
{
}

/// A match that was created is valid exactly when the stake is positive and
/// the choice is 0 or 1; its client state is valid in any case.
pub proof fn law_creation_gives_valid_records(
    ctx: InitClient,
    max_result: u64,
    choice: u64,
    stake: u64,
    now: i64,
)
    requires
        ctx.outcome(max_result, stake, now) is Ok,
    ensures
        ctx.after(max_result, choice, stake, now).state.wf(),
        ctx.after(max_result, choice, stake, now).game.wf() <==> stake > 0 && choice <= 1,
        ctx.after(max_result, choice, stake, now).game.open(),
{
}

/// A creation that names no bound is a creation with the cap as bound: same
/// answer, same records.
pub proof fn law_zero_bound_is_the_cap(ctx: InitClient, choice: u64, stake: u64, now: i64)
    ensures
        ctx.outcome(0, stake, now) == ctx.outcome(MAX_RESULT, stake, now),
        ctx.after(0, choice, stake, now) == ctx.after(MAX_RESULT, choice, stake, now),
{
}

/// The stored buffer only moves to a buffer that is neither all zero nor the
/// buffer stored before.
pub proof fn law_buffer_advances_only_when_fresh(state: VrfClientState, buffer: [u8; 32], now: i64)
    ensures
        state.after_consuming(buffer, now).result_buffer != state.result_buffer ==> state.fresh(
            buffer,
        ) && state.after_consuming(buffer, now).result_buffer == buffer,
        state.after_consuming(buffer, now).max_result == state.max_result,
        state.after_consuming(buffer, now).vrf == state.vrf,
        state.wf() ==> state.after_consuming(buffer, now).wf(),
{
    if state.max_result >= 1 {
        law_number_within_bound(le_value(buffer@.subrange(0, 16)), state.max_result);
    }
}

/// Settling twice with the same delivered buffer is settling once, whether
/// the settlements pay or leave the pot in escrow: the second settlement
/// changes nothing and pays nothing, and it succeeds when the first did.
pub proof fn law_settlement_is_idempotent(ctx: ConsumeRandomness, first: i64, second: i64)
    ensures
        ctx.after(first).after(second) == ctx.after(first),
        ctx.outcome(first) is Ok ==> ctx.after(first).after_deferred(second) == ctx.after(first),
        ctx.after_deferred(first).after_deferred(second) == ctx.after_deferred(first),
        ctx.after_deferred(first).after(second) == ctx.after_deferred(first),
        !ctx.after(first).drawing() || ctx.outcome(first) is Err,
        !ctx.after_deferred(first).drawing(),
        ctx.outcome(first) is Ok ==> ctx.after(first).outcome(second) is Ok && ctx.after(
            first,
        ).deferred_outcome(second) is Ok,
        ctx.deferred_outcome(first) is Ok ==> ctx.after_deferred(first).outcome(second) is Ok
            && ctx.after_deferred(first).deferred_outcome(second) is Ok,
{
}

/// A settlement that does not draw neither pays nor records: it answers the
/// same whether it would pay or not, and changes nothing.
pub proof fn law_settlement_without_draw_changes_nothing(ctx: ConsumeRandomness, now: i64)
    requires
        !ctx.drawing(),
    ensures
        ctx.outcome(now) == ctx.deferred_outcome(now),
        !(ctx.outcome(now) matches Ok(Settlement::Settled { .. })),
        !(ctx.outcome(now) matches Ok(Settlement::Recorded { .. })),
        ctx.after(now) == ctx,
        ctx.after_deferred(now) == ctx,
{
}

/// Two callers who settle with the same delivered buffer, in either order:
/// at most one of them settles the match, the second succeeds when the first
/// did, and match and balances end the same whoever came first.
pub proof fn law_racing_settlements_agree(ctx: ConsumeRandomness, one: i64, other: i64)
    ensures
        ctx.outcome(one) is Ok <==> ctx.outcome(other) is Ok,
        ctx.outcome(one) is Ok ==> ctx.after(one).outcome(other) is Ok,
        !(ctx.after(one).outcome(other) matches Ok(Settlement::Settled { .. })),
        ctx.after(one).after(other).game == ctx.after(other).after(one).game,
        ctx.after(one).after(other).escrow_token_account == ctx.after(other).after(
            one,
        ).escrow_token_account,
        ctx.after(one).after(other).owner_token_account == ctx.after(other).after(
            one,
        ).owner_token_account,
        ctx.after(one).after(other).joinee_token_account == ctx.after(other).after(
            one,
        ).joinee_token_account,
        ctx.deferred_outcome(one) is Ok <==> ctx.deferred_outcome(other) is Ok,
        !(ctx.after_deferred(one).deferred_outcome(other) matches Ok(
            Settlement::Recorded { .. },
        )),
        ctx.after_deferred(one).after_deferred(other).game == ctx.after_deferred(
            other,
        ).after_deferred(one).game,
{
}

/// A settlement records as winner the owner when the parity drawn is the
/// owner's choice and the second participant when it is not, and records
/// that parity as the result; so when it pays and so when it leaves the pot
/// in escrow.
pub proof fn law_settlement_records_the_winner(ctx: ConsumeRandomness, now: i64)
    requires
        ctx.drawing(),
    ensures
        ctx.parity() <= 1,
        ctx.deferred_outcome(now) matches Ok(Settlement::Recorded { winner, result, .. })
            && Some(winner) == ctx.after_deferred(now).game.winner && result == ctx.parity(),
        ctx.after_deferred(now).game.result == Some(ctx.parity()),
        ctx.parity() == ctx.game.owner_choice ==> ctx.after_deferred(now).game.winner == Some(
            ctx.game.owner,
        ),
        ctx.parity() != ctx.game.owner_choice ==> ctx.after_deferred(now).game.winner
            == ctx.game.joinee,
        ctx.outcome(now) is Ok ==> (ctx.outcome(now) matches Ok(
            Settlement::Settled { winner, result, .. },
        ) && Some(winner) == ctx.after(now).game.winner && result == ctx.parity()),
        ctx.outcome(now) is Ok ==> ctx.after(now).game.winner == ctx.after_deferred(
            now,
        ).game.winner && ctx.after(now).game.result == ctx.after_deferred(now).game.result
            && ctx.after(now).state == ctx.after_deferred(now).state,
{
}

/// In a valid settled match the winner is the owner or the second
/// participant; the owner when the result is the owner's choice, the second
/// participant when it is not.
pub proof fn law_winner_is_a_participant(game: GameState)
    requires
        game.wf(),
        game.winner is Some,
    ensures
        game.winner == Some(game.owner) || game.winner == game.joinee,
        game.result == Some(game.owner_choice) ==> game.winner == Some(game.owner),
        game.result != Some(game.owner_choice) ==> game.winner == game.joinee,
{
}

/// In a valid settled match whose two participants differ, exactly one of
/// them is the winner, and it is the owner exactly when the result is the
/// owner's choice.
pub proof fn law_exactly_one_winner(game: GameState)
    requires
        game.wf(),
        game.winner is Some,
        game.joinee != Some(game.owner),
    ensures
        (game.winner == Some(game.owner)) != (game.winner == game.joinee),
        game.winner == Some(game.owner) <==> game.result == Some(game.owner_choice),
{
}

/// No action takes a valid match or a valid client state to an invalid one.
pub proof fn law_actions_keep_validity(
    join: RequestRandomness,
    requested: Result<(), OracleUnavailable>,
    settle: ConsumeRandomness,
    claim: ClaimReward,
    now: i64,
)
    ensures
        join.game.wf() ==> join.after(requested, now).game.wf(),
        join.state.wf() ==> join.after(requested, now).state.wf(),
        settle.game.wf() ==> settle.after(now).game.wf(),
        settle.state.wf() ==> settle.after(now).state.wf(),
        settle.game.wf() ==> settle.after_deferred(now).game.wf(),
        settle.state.wf() ==> settle.after_deferred(now).state.wf(),
        claim.game.wf() ==> claim.after().game.wf(),
        claim.after().state == claim.state,
{
    law_buffer_advances_only_when_fresh(settle.state, settle.vrf.result_buffer, now);
}

/// The terms of a match are fixed at its creation: no join, settlement or
/// claim changes owner, choice, stake or time of creation, nor the oracle
/// account or the bound of the client state; and only a join on an open
/// match changes the second participant.
pub proof fn law_terms_are_fixed(
    join: RequestRandomness,
    requested: Result<(), OracleUnavailable>,
    settle: ConsumeRandomness,
    claim: ClaimReward,
    now: i64,
)
    ensures
        same_terms(join.game, join.after(requested, now).game),
        same_terms(settle.game, settle.after(now).game),
        same_terms(settle.game, settle.after_deferred(now).game),
        same_terms(claim.game, claim.after().game),
        join.after(requested, now).game.joinee != join.game.joinee ==> join.game.open(),
        settle.after(now).game.joinee == settle.game.joinee,
        settle.after_deferred(now).game.joinee == settle.game.joinee,
        claim.after().game.joinee == claim.game.joinee,
        join.after(requested, now).state.vrf == join.state.vrf,
        join.after(requested, now).state.max_result == join.state.max_result,
        settle.after(now).state.vrf == settle.state.vrf,
        settle.after(now).state.max_result == settle.state.max_result,
        settle.after_deferred(now).state.vrf == settle.state.vrf,
        settle.after_deferred(now).state.max_result == settle.state.max_result,
        claim.after().state == claim.state,
{
}

/// Winner and result are set by a settlement and by nothing else, and once:
/// a join and a claim leave them as they are, and so does a settlement of a
/// match that has its result.
pub proof fn law_winner_is_final(
    join: RequestRandomness,
    requested: Result<(), OracleUnavailable>,
    settle: ConsumeRandomness,
    claim: ClaimReward,
    now: i64,
)
    ensures
        join.after(requested, now).game.winner == join.game.winner,
        join.after(requested, now).game.result == join.game.result,
        claim.after().game.winner == claim.game.winner,
        claim.after().game.result == claim.game.result,
        settle.game.result is Some ==> settle.after(now) == settle && settle.after_deferred(now)
            == settle,
{
}

/// A claim changes a payout flag and two balances, and nothing else: owner,
/// choice, second participant, winner, result, stake and time of creation
/// of the match are as they were, and so is the client state.
pub proof fn law_claim_changes_only_the_payout_flag(claim: ClaimReward)
    ensures
        claim.after().game == (GameState {
            payout_disbursed: claim.after().game.payout_disbursed,
            ..claim.game
        }),
        claim.after().state == claim.state,
        claim.after().claimant == claim.claimant,
        claim.after().game.payout_disbursed == (claim.game.payout_disbursed
            || claim.outcome() matches Ok(Claim::Paid { .. })),
{
}

/// The pot is paid once: on a match whose pot is marked as paid, neither a
/// settlement nor a claim changes anything, whatever escrow holds.
pub proof fn law_pot_is_paid_once(settle: ConsumeRandomness, claim: ClaimReward, now: i64)
    requires
        settle.game.payout_disbursed,
        claim.game.payout_disbursed,
    ensures
        settle.after(now) == settle,
        settle.after_deferred(now) == settle,
        !settle.drawing(),
        claim.after() == claim,
        claim.outcome() == Ok::<Claim, GameError>(Claim::NotAWinner) || claim.outcome() == Ok::<
            Claim,
            GameError,
        >(Claim::AlreadyPaid),
{
}

/// Nothing leaves escrow without the pot being marked as paid, and the pot
/// is marked as paid only when it leaves escrow: a settlement that pays and
/// a claim that pays set the mark together with the transfer, and a
/// settlement that leaves the pot in escrow touches neither mark nor
/// balance.
pub proof fn law_payment_sets_the_flag(settle: ConsumeRandomness, claim: ClaimReward, now: i64)
    ensures
        settle.after(now).escrow_token_account != settle.escrow_token_account
            ==> !settle.game.payout_disbursed && settle.after(now).game.payout_disbursed,
        settle.after(now).game.payout_disbursed != settle.game.payout_disbursed
            ==> settle.outcome(now) matches Ok(Settlement::Settled { .. }),
        claim.after().escrow_token_account != claim.escrow_token_account
            ==> !claim.game.payout_disbursed && claim.after().game.payout_disbursed,
        claim.after().game.payout_disbursed != claim.game.payout_disbursed
            ==> claim.outcome() matches Ok(Claim::Paid { .. }),
        settle.after_deferred(now).game.payout_disbursed == settle.game.payout_disbursed,
        settle.after_deferred(now).escrow_token_account == settle.escrow_token_account,
        settle.after_deferred(now).owner_token_account == settle.owner_token_account,
        settle.after_deferred(now).joinee_token_account == settle.joinee_token_account,
{
}

/// The escrow over the life of a match that pays with the settlement: empty
/// before the creation, it holds the stake after it, both stakes after the
/// join, and nothing after the settlement.
pub proof fn law_escrow_follows_the_match(
    create: InitClient,
    max_result: u64,
    choice: u64,
    stake: u64,
    created: i64,
    join: RequestRandomness,
    requested: Result<(), OracleUnavailable>,
    joined: i64,
    settle: ConsumeRandomness,
    settled: i64,
)
    requires
        create.escrow_token_account.amount == 0,
        create.outcome(max_result, stake, created) is Ok,
        join.game == create.after(max_result, choice, stake, created).game,
        join.escrow_token_account == create.after(
            max_result,
            choice,
            stake,
            created,
        ).escrow_token_account,
        join.outcome(requested, joined) is Ok,
        settle.game == join.after(requested, joined).game,
        settle.escrow_token_account == join.after(requested, joined).escrow_token_account,
        settle.outcome(settled) matches Ok(Settlement::Settled { .. }),
    ensures
        join.escrow_token_account.amount == stake,
        settle.escrow_token_account.amount == 2 * stake,
        settle.after(settled).escrow_token_account.amount == 0,
        settle.outcome(settled) matches Ok(Settlement::Settled { payout, .. }) && payout == 2
            * stake,
{
}

/// The escrow over the life of a match that pays on a claim: it holds both
/// stakes after the join and still after the settlement, and nothing after
/// the claim that pays.
pub proof fn law_escrow_follows_the_claimed_match(
    join: RequestRandomness,
    requested: Result<(), OracleUnavailable>,
    joined: i64,
    settle: ConsumeRandomness,
    settled: i64,
    claim: ClaimReward,
)
    requires
        join.game.open(),
        !join.game.payout_disbursed,
        join.escrow_token_account.amount == join.game.bet_amount,
        join.outcome(requested, joined) is Ok,
        settle.game == join.after(requested, joined).game,
        settle.escrow_token_account == join.after(requested, joined).escrow_token_account,
        settle.deferred_outcome(settled) matches Ok(Settlement::Recorded { .. }),
        claim.game == settle.after_deferred(settled).game,
        claim.escrow_token_account == settle.after_deferred(settled).escrow_token_account,
        claim.outcome() matches Ok(Claim::Paid { .. }),
    ensures
        settle.escrow_token_account.amount == join.game.pot(),
        claim.escrow_token_account.amount == join.game.pot(),
        claim.after().escrow_token_account.amount == 0,
        claim.outcome() matches Ok(Claim::Paid { amount }) && amount == join.game.pot(),
{
}

/// What escrow holds for a match when only the actions of the game move it:
/// the owner's stake while the match is open, the pot once somebody has
/// joined, nothing once the pot is paid.
pub open spec fn escrow_due(game: GameState) -> int {
    if game.payout_disbursed {
        0
    } else if game.joinee is Some {
        game.pot()
    } else {
        game.bet_amount as int
    }
}

/// Escrow holds what is due at every step: a creation on an empty escrow
/// leaves what is due, and a join, a settlement or a claim on a valid match
/// whose escrow holds what is due leaves what is due.
pub proof fn law_escrow_holds_what_is_due(
    create: InitClient,
    max_result: u64,
    choice: u64,
    stake: u64,
    join: RequestRandomness,
    requested: Result<(), OracleUnavailable>,
    settle: ConsumeRandomness,
    claim: ClaimReward,
    now: i64,
)
    requires
        create.escrow_token_account.amount == 0,
        create.outcome(max_result, stake, now) is Ok,
        join.game.wf(),
        join.escrow_token_account.amount == escrow_due(join.game),
        settle.game.wf(),
        settle.escrow_token_account.amount == escrow_due(settle.game),
        claim.game.wf(),
        claim.escrow_token_account.amount == escrow_due(claim.game),
    ensures
        create.after(max_result, choice, stake, now).escrow_token_account.amount == escrow_due(
            create.after(max_result, choice, stake, now).game,
        ),
        join.after(requested, now).escrow_token_account.amount == escrow_due(
            join.after(requested, now).game,
        ),
        settle.after(now).escrow_token_account.amount == escrow_due(settle.after(now).game),
        settle.after_deferred(now).escrow_token_account.amount == escrow_due(
            settle.after_deferred(now).game,
        ),
        claim.after().escrow_token_account.amount == escrow_due(claim.after().game),
{
}

/// No action makes or loses a token: what the balances it touches hold
/// together is the same before and after.
pub proof fn law_tokens_are_conserved(
    create: InitClient,
    max_result: u64,
    choice: u64,
    stake: u64,
    join: RequestRandomness,
    requested: Result<(), OracleUnavailable>,
    settle: ConsumeRandomness,
    claim: ClaimReward,
    now: i64,
)
    ensures
        create.after(max_result, choice, stake, now).escrow_token_account.amount + create.after(
            max_result,
            choice,
            stake,
            now,
        ).user_token_account.amount == create.escrow_token_account.amount
            + create.user_token_account.amount,
        join.after(requested, now).escrow_token_account.amount + join.after(
            requested,
            now,
        ).user_token_account.amount == join.escrow_token_account.amount
            + join.user_token_account.amount,
        settle.after(now).escrow_token_account.amount + settle.after(
            now,
        ).owner_token_account.amount + settle.after(now).joinee_token_account.amount
            == settle.escrow_token_account.amount + settle.owner_token_account.amount
            + settle.joinee_token_account.amount,
        claim.after().escrow_token_account.amount + claim.after().claimant_token_account.amount
            == claim.escrow_token_account.amount + claim.claimant_token_account.amount,
{
}

/// An escrow that holds exactly the pot is empty after the settlement or the
/// claim that pays it, and the winner's balance has grown by the pot.
pub proof fn law_payment_empties_escrow(settle: ConsumeRandomness, claim: ClaimReward, now: i64)
    requires
        settle.escrow_token_account.amount == settle.game.pot(),
        claim.escrow_token_account.amount == claim.game.pot(),
    ensures
        settle.outcome(now) matches Ok(Settlement::Settled { .. }) ==> settle.after(
            now,
        ).escrow_token_account.amount == 0 && settle.after(now).owner_token_account.amount
            + settle.after(now).joinee_token_account.amount == settle.owner_token_account.amount
            + settle.joinee_token_account.amount + settle.game.pot(),
        settle.outcome(now) matches Ok(Settlement::Settled { .. }) && settle.owner_wins()
            ==> settle.after(now).owner_token_account.amount
            == settle.owner_token_account.amount + settle.game.pot(),
        settle.outcome(now) matches Ok(Settlement::Settled { .. }) && !settle.owner_wins()
            ==> settle.after(now).joinee_token_account.amount
            == settle.joinee_token_account.amount + settle.game.pot(),
        claim.outcome() matches Ok(Claim::Paid { .. }) ==> claim.after().escrow_token_account.amount
            == 0 && claim.after().claimant_token_account.amount
            == claim.claimant_token_account.amount + claim.game.pot(),
{
}

/// A settlement or a claim takes from escrow the pot or nothing, and
/// nothing as long as nobody has joined.
pub proof fn law_escrow_is_released_whole(settle: ConsumeRandomness, claim: ClaimReward, now: i64)
    ensures
        settle.after(now).escrow_token_account.amount == settle.escrow_token_account.amount
            || settle.after(now).escrow_token_account.amount
            == settle.escrow_token_account.amount - settle.game.pot(),
        claim.after().escrow_token_account.amount == claim.escrow_token_account.amount
            || claim.after().escrow_token_account.amount == claim.escrow_token_account.amount
            - claim.game.pot(),
        settle.game.joinee is None ==> settle.after(now) == settle && settle.after_deferred(now)
            == settle,
        claim.game.joinee is None ==> claim.after() == claim,
        settle.after(now).escrow_token_account != settle.escrow_token_account
            ==> settle.game.joinee is Some && settle.escrow_token_account.amount
            >= settle.game.pot(),
        claim.after().escrow_token_account != claim.escrow_token_account
            ==> claim.game.joinee is Some && claim.escrow_token_account.amount
            >= claim.game.pot(),
{
}

/// Once escrow is empty, a match with a positive stake pays nothing more:
/// neither a settlement nor a claim changes any balance.
pub proof fn law_escrow_is_released_once(settle: ConsumeRandomness, claim: ClaimReward, now: i64)
    requires
        settle.game.bet_amount > 0,
        settle.escrow_token_account.amount == 0,
        claim.game.bet_amount > 0,
        claim.escrow_token_account.amount == 0,
    ensures
        settle.after(now) == settle,
        claim.after() == claim,
        !(settle.outcome(now) matches Ok(Settlement::Settled { .. })),
        !(claim.outcome() matches Ok(Claim::Paid { .. })),
{
}

/// A claimant who is not the winner is told so, and nothing changes.
pub proof fn law_claim_by_non_winner_changes_nothing(ctx: ClaimReward)
    requires
        !ctx.eligible(),
    ensures
        ctx.outcome() == Ok::<Claim, GameError>(Claim::NotAWinner),
        ctx.after() == ctx,
{
}

/// After a settlement, a claim works out the same winner: a claimant is
/// eligible exactly when the claimant is the winner the settlement recorded.
/// After a settlement that paid, no claim is paid. After a settlement that
/// left the pot in escrow, the winner's claim is paid exactly when the
/// ledger releases the pot.
pub proof fn law_claim_agrees_with_settlement(
    settle: ConsumeRandomness,
    now: i64,
    paid: ClaimReward,
    unpaid: ClaimReward,
)
    requires
        settle.state.max_result >= 1,
        settle.drawing(),
        settle.outcome(now) is Ok,
        paid.game == settle.after(now).game,
        paid.state == settle.after(now).state,
        unpaid.game == settle.after_deferred(now).game,
        unpaid.state == settle.after_deferred(now).state,
    ensures
        paid.eligible() <==> Some(paid.claimant) == paid.game.winner,
        paid.eligible() ==> paid.outcome() == Ok::<Claim, GameError>(Claim::AlreadyPaid),
        paid.after() == paid,
        unpaid.eligible() <==> Some(unpaid.claimant) == unpaid.game.winner,
        unpaid.eligible() ==> (unpaid.outcome() matches Ok(Claim::Paid { .. })
            <==> unpaid.release() is Ok),
        unpaid.eligible() && unpaid.release() is Ok ==> unpaid.outcome() == Ok::<
            Claim,
            GameError,
        >(Claim::Paid { amount: unpaid.game.pot() as u64 }) && unpaid.after().game.winner
            == unpaid.game.winner && unpaid.after().game.result == unpaid.game.result,
{
    law_number_within_bound(
        le_value(settle.vrf.result_buffer@.subrange(0, 16)),
        settle.state.max_result,
    );
}

} // verus!
