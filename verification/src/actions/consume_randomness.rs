//! Settlement: a delivered buffer is consumed and the winner is found. The
//! pot is paid with the settlement, or left in escrow for a claim.

use crate::bytes::{bytes_equal, is_zeroed, zeroed};
use crate::draw::{draw, number_drawn, parity, parity_of};
use crate::error::{GameError, VrfClientErrorCode};
use crate::events::VrfClientUpdated;
use crate::ledger::{transfer, transfer_outcome, LedgerError, TokenAccount};
use crate::pubkey::Pubkey;
use crate::state::{GameState, VrfAccount, VrfClientState};
use vstd::prelude::*;

verus! {

/// What a caller of the settlement chooses: nothing.
#[derive(Clone, Copy, Debug, PartialEq, Eq, Structural)]
pub struct ConsumeRandomnessParams {

}

/// How a settlement went when it did not fail.
#[derive(Clone, Copy, Debug, PartialEq, Eq)]
pub enum Settlement {
    /// The oracle has delivered nothing yet: nothing changed.
    NotYetDrawn,
    /// The delivered buffer was consumed before: nothing changed.
    AlreadyConsumed,
    /// The match has its result, or its pot was paid: nothing changed.
    AlreadySettled,
    /// Nobody has joined the match: nothing changed.
    NotJoined,
    /// The match was settled and the pot paid.
    Settled {
        /// Who won.
        winner: Pubkey,
        /// The parity that was drawn.
        result: u64,
        /// What the winner was paid.
        payout: u64,
        /// The report of the client state's change, when its number changed.
        update: Option<VrfClientUpdated>,
    },
    /// The match was settled and the pot left in escrow for the winner to
    /// claim.
    Recorded {
        /// Who won.
        winner: Pubkey,
        /// The parity that was drawn.
        result: u64,
        /// The report of the client state's change, when its number changed.
        update: Option<VrfClientUpdated>,
    },
}

/// The records a settlement works on.
#[derive(Clone, Copy, Debug, PartialEq, Eq)]
pub struct ConsumeRandomness {
    /// The client state bound to the oracle account.
    pub state: VrfClientState,
    /// The address of the client state.
    pub state_key: Pubkey,
    /// The oracle account, with the buffer it last delivered.
    pub vrf: VrfAccount,
    /// The match.
    pub game: GameState,
    /// The balance the match holds in escrow.
    pub escrow_token_account: TokenAccount,
    /// The owner's balance.
    pub owner_token_account: TokenAccount,
    /// The second participant's balance.
    pub joinee_token_account: TokenAccount,
}

impl ConsumeRandomness {
    /// Whether the oracle account presented is the one the client state is
    /// bound to.
    pub open spec fn bound(self) -> bool {
        self.state.vrf == self.vrf.key
    }

    /// What a settlement answers without drawing, if it does not draw: a
    /// refusal of an oracle account the client state is not bound to, then
    /// nothing to do for a buffer that is all zero or was consumed, for a
    /// match that is over, and for a match that nobody joined.
    pub open spec fn early(self) -> Option<Result<Settlement, GameError>> {
        if !self.bound() {
            Some(Err(GameError::Client(VrfClientErrorCode::InvalidVrfAccount)))
        } else if zeroed(self.vrf.result_buffer) {
            Some(Ok(Settlement::NotYetDrawn))
        } else if self.vrf.result_buffer == self.state.result_buffer {
            Some(Ok(Settlement::AlreadyConsumed))
        } else if self.game.closed() {
            Some(Ok(Settlement::AlreadySettled))
        } else if self.game.joinee is None {
            Some(Ok(Settlement::NotJoined))
        } else {
            None
        }
    }

    /// Whether a settlement draws a number: the oracle account is the right
    /// one, its buffer is fresh, and the match is joined and not over.
    pub open spec fn drawing(self) -> bool {
        self.early() is None
    }

    /// The number that the delivered buffer gives.
    pub open spec fn number(self) -> nat {
        number_drawn(self.vrf.result_buffer, self.state.max_result)
    }

    /// The parity of that number.
    pub open spec fn parity(self) -> u64 {
        parity_of(self.number())
    }

    /// Whether the parity drawn is the owner's choice.
    pub open spec fn owner_wins(self) -> bool {
        self.parity() == self.game.owner_choice
    }

    /// The balance of whoever the delivered buffer makes the winner.
    pub open spec fn winner_balance(self) -> u64 {
        if self.owner_wins() {
            self.owner_token_account.amount
        } else {
            self.joinee_token_account.amount
        }
    }

    /// What the ledger answers to the release of the pot to the winner.
    pub open spec fn release(self) -> Result<(), LedgerError> {
        transfer_outcome(self.escrow_token_account.amount, self.winner_balance(), self.game.pot())
    }

    /// How a settlement that pays ends at time `now`.
    pub open spec fn outcome(self, now: i64) -> Result<Settlement, GameError> {
        match self.early() {
            Some(answer) => answer,
            None => match self.release() {
                Err(refusal) => Err(GameError::Ledger(refusal)),
                Ok(()) => Ok(
                    Settlement::Settled {
                        winner: self.game.winner_for(self.parity()),
                        result: self.parity(),
                        payout: self.game.pot() as u64,
                        update: self.state.report(self.state_key, self.vrf.result_buffer, now),
                    },
                ),
            },
        }
    }

    /// How a settlement that leaves the pot in escrow ends at time `now`.
    pub open spec fn deferred_outcome(self, now: i64) -> Result<Settlement, GameError> {
        match self.early() {
            Some(answer) => answer,
            None => Ok(
                Settlement::Recorded {
                    winner: self.game.winner_for(self.parity()),
                    result: self.parity(),
                    update: self.state.report(self.state_key, self.vrf.result_buffer, now),
                },
            ),
        }
    }

    /// The records once the match is settled at time `now` and the pot is
    /// left in escrow: the match has its winner and result, and the client
    /// state has consumed the buffer.
    pub open spec fn recorded(self, now: i64) -> ConsumeRandomness {
        ConsumeRandomness {
            state: self.state.after_consuming(self.vrf.result_buffer, now),
            game: GameState {
                winner: Some(self.game.winner_for(self.parity())),
                result: Some(self.parity()),
                ..self.game
            },
            ..self
        }
    }

    /// The records once the match is settled at time `now` and the pot is
    /// paid: as when it is left in escrow, and the pot has moved from escrow
    /// to the winner and is marked as paid.
    pub open spec fn settled(self, now: i64) -> ConsumeRandomness {
        ConsumeRandomness {
            game: GameState { payout_disbursed: true, ..self.recorded(now).game },
            escrow_token_account: TokenAccount {
                amount: (self.escrow_token_account.amount - self.game.pot()) as u64,
            },
            owner_token_account: if self.owner_wins() {
                TokenAccount { amount: (self.owner_token_account.amount + self.game.pot()) as u64 }
            } else {
                self.owner_token_account
            },
            joinee_token_account: if self.owner_wins() {
                self.joinee_token_account
            } else {
                TokenAccount { amount: (self.joinee_token_account.amount + self.game.pot()) as u64 }
            },
            ..self.recorded(now)
        }
    }

    /// The records after a settlement that pays, at time `now`: changed only
    /// when the match was settled.
    pub open spec fn after(self, now: i64) -> ConsumeRandomness {
        if self.outcome(now) matches Ok(Settlement::Settled { .. }) {
            self.settled(now)
        } else {
            self
        }
    }

    /// The records after a settlement that leaves the pot in escrow, at time
    /// `now`: changed only when the match was settled.
    pub open spec fn after_deferred(self, now: i64) -> ConsumeRandomness {
        if self.deferred_outcome(now) matches Ok(Settlement::Recorded { .. }) {
            self.recorded(now)
        } else {
            self
        }
    }

    /// Checks that the oracle account presented is the one the client state
    /// is bound to.
    pub fn validate(&self) -> (checked: Result<(), VrfClientErrorCode>)
        ensures
            checked == if self.bound() {
                Ok::<(), VrfClientErrorCode>(())
            } else {
                Err(VrfClientErrorCode::InvalidVrfAccount)
            },
    {
        if self.state.vrf == self.vrf.key {
            Ok(())
        } else {
            Err(VrfClientErrorCode::InvalidVrfAccount)
        }
    }

    /// What a settlement answers without drawing, if it does not draw.
    fn answer_early(&self) -> (answer: Option<Result<Settlement, GameError>>)
        ensures
            answer == self.early(),
    {
        if self.state.vrf != self.vrf.key {
            return Some(Err(GameError::Client(VrfClientErrorCode::InvalidVrfAccount)));
        }
        if is_zeroed(&self.vrf.result_buffer) {
            return Some(Ok(Settlement::NotYetDrawn));
        }
        if bytes_equal(&self.vrf.result_buffer, &self.state.result_buffer) {
            return Some(Ok(Settlement::AlreadyConsumed));
        }
        if self.game.result.is_some() || self.game.payout_disbursed {
            return Some(Ok(Settlement::AlreadySettled));
        }
        if self.game.joinee.is_none() {
            return Some(Ok(Settlement::NotJoined));
        }
        None
    }

    /// Whether a settlement draws a number. Only then does the bound of the
    /// client state matter.
    pub fn is_drawing(&self) -> (yes: bool)
        ensures
            yes == self.drawing(),
    {
        self.answer_early().is_none()
    }

    /// Settles the match at time `now` with the buffer the oracle account
    /// holds, and pays the pot.
    ///
    /// A buffer that is all zero, or the one consumed last, changes nothing;
    /// neither does a fresh buffer on a match that is over or that nobody
    /// joined. Otherwise the number is drawn, the pot goes from escrow to
    /// the winner in one transfer and is marked as paid, and winner and
    /// parity are recorded; the client state stores buffer, number and time
    /// when the number changed. When the ledger refuses the transfer nothing
    /// is changed.
    pub fn actuate(ctx: &mut ConsumeRandomness, now: i64) -> (out: Result<Settlement, GameError>)
        requires
            old(ctx).drawing() ==> old(ctx).state.max_result >= 1,
        ensures
            out == old(ctx).outcome(now),
            *final(ctx) == old(ctx).after(now),
    {
        if let Some(answer) = ctx.answer_early() {
            return answer;
        }
        let number = draw(&ctx.vrf.result_buffer, ctx.state.max_result);
        let side = parity(number);
        let owner_wins = side == ctx.game.owner_choice;
        let pot = match ctx.game.stakes() {
            None => {
                return Err(GameError::Ledger(LedgerError::InsufficientFunds));
            },
            Some(pot) => pot,
        };
        let released = if owner_wins {
            transfer(&mut ctx.escrow_token_account, &mut ctx.owner_token_account, pot)
        } else {
            transfer(&mut ctx.escrow_token_account, &mut ctx.joinee_token_account, pot)
        };
        if let Err(refusal) = released {
            return Err(GameError::Ledger(refusal));
        }
        let (winner, update) = ctx.record(number, side, now);
        ctx.game.payout_disbursed = true;
        Ok(Settlement::Settled { winner, result: side, payout: pot, update })
    }

    /// Settles the match at time `now` with the buffer the oracle account
    /// holds, and leaves the pot in escrow for the winner to claim.
    ///
    /// A buffer that is all zero, or the one consumed last, changes nothing;
    /// neither does a fresh buffer on a match that is over or that nobody
    /// joined. Otherwise the number is drawn and winner and parity are
    /// recorded; the client state stores buffer, number and time when the
    /// number changed. No balance is touched.
    pub fn actuate_deferred(ctx: &mut ConsumeRandomness, now: i64) -> (out: Result<
        Settlement,
        GameError,
    >)
        requires
            old(ctx).drawing() ==> old(ctx).state.max_result >= 1,
        ensures
            out == old(ctx).deferred_outcome(now),
            *final(ctx) == old(ctx).after_deferred(now),
    {
        if let Some(answer) = ctx.answer_early() {
            return answer;
        }
        let number = draw(&ctx.vrf.result_buffer, ctx.state.max_result);
        let side = parity(number);
        let (winner, update) = ctx.record(number, side, now);
        Ok(Settlement::Recorded { winner, result: side, update })
    }

    /// Records winner and parity in the match and lets the client state
    /// consume the buffer.
    fn record(&mut self, number: u128, side: u64, now: i64) -> (recorded: (
        Pubkey,
        Option<VrfClientUpdated>,
    ))
        requires
            old(self).drawing(),
            number == old(self).number(),
            side == old(self).parity(),
        ensures
            recorded.0 == old(self).game.winner_for(side),
            recorded.1 == old(self).state.report(
                old(self).state_key,
                old(self).vrf.result_buffer,
                now,
            ),
            final(self).state == old(self).recorded(now).state,
            final(self).game == old(self).recorded(now).game,
            final(self).state_key == old(self).state_key,
            final(self).vrf == old(self).vrf,
            final(self).escrow_token_account == old(self).escrow_token_account,
            final(self).owner_token_account == old(self).owner_token_account,
            final(self).joinee_token_account == old(self).joinee_token_account,
    {
        let winner = match self.game.joinee {
            Some(joinee) if side != self.game.owner_choice => joinee,
            _ => self.game.owner,
        };
        self.game.winner = Some(winner);
        self.game.result = Some(side);
        let buffer = self.vrf.result_buffer;
        let update = self.state.record(self.state_key, &buffer, number, now);
        (winner, update)
    }
}

} // verus!
