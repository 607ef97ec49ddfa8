//! Claiming: whoever the draw made the winner takes the pot out of escrow,
//! once. The match remembers that it was paid.

use crate::draw::{parity, parity_of};
use crate::error::{GameError, VrfClientErrorCode};
use crate::ledger::{transfer, transfer_outcome, LedgerError, TokenAccount};
use crate::pubkey::Pubkey;
use crate::state::{GameState, VrfClientState};
use vstd::prelude::*;

verus! {

/// What a claimant chooses: nothing.
#[derive(Clone, Copy, Debug, PartialEq, Eq, Structural)]
pub struct ClaimRewardParams {

}

/// How a claim went when it did not fail.
#[derive(Clone, Copy, Debug, PartialEq, Eq, Structural)]
pub enum Claim {
    /// The claimant is not the winner: nothing changed.
    NotAWinner,
    /// The claimant is the winner and the pot was paid before: nothing
    /// changed.
    AlreadyPaid,
    /// The pot was paid to the claimant.
    Paid { amount: u64 },
}

/// The records a claim works on.
#[derive(Clone, Copy, Debug, PartialEq, Eq)]
pub struct ClaimReward {
    /// The match.
    pub game: GameState,
    /// The client state with the number drawn.
    pub state: VrfClientState,
    /// The balance the match holds in escrow.
    pub escrow_token_account: TokenAccount,
    /// The balance the claimant is paid to.
    pub claimant_token_account: TokenAccount,
    /// Who claims.
    pub claimant: Pubkey,
}

impl ClaimReward {
    /// Whether the claimant is the winner: a second participant has joined,
    /// a number has been drawn, and the claimant is the owner when the
    /// number's parity is the owner's choice, the second participant when it
    /// is not.
    pub open spec fn eligible(self) -> bool {
        &&& self.game.joinee is Some
        &&& self.state.drawn()
        &&& self.claimant == self.game.winner_for(self.parity())
    }

    /// What the ledger answers to the release of the pot to the claimant.
    pub open spec fn release(self) -> Result<(), LedgerError> {
        transfer_outcome(
            self.escrow_token_account.amount,
            self.claimant_token_account.amount,
            self.game.pot(),
        )
    }

    /// The parity of the number the client state holds.
    pub open spec fn parity(self) -> u64 {
        parity_of(self.state.result as nat)
    }

    /// How a claim ends.
    pub open spec fn outcome(self) -> Result<Claim, GameError> {
        if !self.eligible() {
            Ok(Claim::NotAWinner)
        } else if self.game.payout_disbursed {
            Ok(Claim::AlreadyPaid)
        } else {
            match self.release() {
                Err(refusal) => Err(GameError::Ledger(refusal)),
                Ok(()) => Ok(Claim::Paid { amount: self.game.pot() as u64 }),
            }
        }
    }

    /// The records once the pot is paid to the claimant: the pot has moved
    /// from escrow to the claimant and is marked as paid. Nothing else of
    /// the match changes, and nothing of the client state.
    pub open spec fn paid(self) -> ClaimReward {
        ClaimReward {
            game: GameState { payout_disbursed: true, ..self.game },
            escrow_token_account: TokenAccount {
                amount: (self.escrow_token_account.amount - self.game.pot()) as u64,
            },
            claimant_token_account: TokenAccount {
                amount: (self.claimant_token_account.amount + self.game.pot()) as u64,
            },
            ..self
        }
    }

    /// The records after a claim: changed only when the pot was paid.
    pub open spec fn after(self) -> ClaimReward {
        if self.outcome() matches Ok(Claim::Paid { .. }) {
            self.paid()
        } else {
            self
        }
    }

    /// A claim needs no check before it is made.
    pub fn validate(&self) -> (checked: Result<(), VrfClientErrorCode>)
        ensures
            checked == Ok::<(), VrfClientErrorCode>(()),
    {
        Ok(())
    }

    /// Pays the pot to the claimant if the claimant is the winner.
    ///
    /// Who won is worked out afresh from the number the client state holds
    /// and the owner's choice. A claimant who is not the winner gets the
    /// answer that there is nothing to claim, and nothing is changed; so
    /// does the winner of a match whose pot is marked as paid. Otherwise the
    /// pot goes from escrow to the claimant's balance and is marked as paid;
    /// winner and result of the match stay as the settlement left them.
    /// When the ledger refuses the transfer nothing is changed.
    pub fn actuate(ctx: &mut ClaimReward) -> (out: Result<Claim, GameError>)
        ensures
            out == old(ctx).outcome(),
            *final(ctx) == old(ctx).after(),
    {
        let joinee = match ctx.game.joinee {
            None => {
                return Ok(Claim::NotAWinner);
            },
            Some(joinee) => joinee,
        };
        if ctx.state.result == 0 {
            return Ok(Claim::NotAWinner);
        }
        let winner = if parity(ctx.state.result) == ctx.game.owner_choice {
            ctx.game.owner
        } else {
            joinee
        };
        if ctx.claimant != winner {
            return Ok(Claim::NotAWinner);
        }
        if ctx.game.payout_disbursed {
            return Ok(Claim::AlreadyPaid);
        }
        let pot = match ctx.game.stakes() {
            None => {
                return Err(GameError::Ledger(LedgerError::InsufficientFunds));
            },
            Some(pot) => pot,
        };
        if let Err(refusal) = transfer(
            &mut ctx.escrow_token_account,
            &mut ctx.claimant_token_account,
            pot,
        ) {
            return Err(GameError::Ledger(refusal));
        }
        ctx.game.payout_disbursed = true;
        Ok(Claim::Paid { amount: pot })
    }
}

} // verus!
