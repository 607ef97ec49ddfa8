//! Joining: a second participant puts in the stake and a draw is asked for.

use crate::error::{GameError, OracleUnavailable, VrfClientErrorCode};
use crate::events::RandomnessRequested;
use crate::ledger::{transfer, transfer_outcome, LedgerError, TokenAccount};
use crate::pubkey::Pubkey;
use crate::state::{GameState, VrfAccount, VrfClientState};
use vstd::prelude::*;

verus! {

/// What the second participant hands in: the match to join, and two nonces
/// that go to the oracle as they are.
#[derive(Debug, PartialEq, Eq)]
pub struct RequestRandomnessParams {
    pub permission_bump: u8,
    pub switchboard_state_bump: u8,
    pub game_id: String,
}

impl Clone for RequestRandomnessParams {
    fn clone(&self) -> (copy: RequestRandomnessParams)
        ensures
            copy.permission_bump == self.permission_bump,
            copy.switchboard_state_bump == self.switchboard_state_bump,
            copy.game_id@ == self.game_id@,
    {
        RequestRandomnessParams {
            permission_bump: self.permission_bump,
            switchboard_state_bump: self.switchboard_state_bump,
            game_id: self.game_id.clone(),
        }
    }
}

/// The records a join works on.
#[derive(Clone, Copy, Debug, PartialEq, Eq)]
pub struct RequestRandomness {
    /// The client state bound to the oracle account.
    pub state: VrfClientState,
    /// The address of the client state.
    pub state_key: Pubkey,
    /// The match.
    pub game: GameState,
    /// The oracle account the draw is asked of.
    pub vrf: VrfAccount,
    /// The balance the match holds in escrow.
    pub escrow_token_account: TokenAccount,
    /// The balance the second participant pays from.
    pub user_token_account: TokenAccount,
    /// Who joins.
    pub joinee: Pubkey,
}

impl RequestRandomness {
    /// What stands in the way of a join before anything is done: an oracle
    /// account other than the one the client state is bound to, then a match
    /// that is not open.
    pub open spec fn refusal(self) -> Option<VrfClientErrorCode> {
        if self.state.vrf != self.vrf.key {
            Some(VrfClientErrorCode::InvalidVrfAccount)
        } else if !self.game.open() {
            Some(VrfClientErrorCode::GameNotOpen)
        } else {
            None
        }
    }

    /// What the ledger answers to the payment of the stake into escrow.
    pub open spec fn deposit(self) -> Result<(), LedgerError> {
        transfer_outcome(
            self.user_token_account.amount,
            self.escrow_token_account.amount,
            self.game.bet_amount as int,
        )
    }

    /// How a join at time `now` ends, given what the oracle answered to the
    /// request for a draw.
    pub open spec fn outcome(self, requested: Result<(), OracleUnavailable>, now: i64) -> Result<
        RandomnessRequested,
        GameError,
    > {
        if let Some(code) = self.refusal() {
            Err(GameError::Client(code))
        } else if requested is Err {
            Err(GameError::OracleUnavailable)
        } else if let Err(refusal) = self.deposit() {
            Err(GameError::Ledger(refusal))
        } else {
            Ok(
                RandomnessRequested {
                    vrf_client: self.state_key,
                    max_result: self.state.max_result,
                    timestamp: now,
                },
            )
        }
    }

    /// The records once the second participant has joined: the client state
    /// awaits a draw, the match has its second participant, and the stake
    /// has moved into escrow.
    pub open spec fn joined(self) -> RequestRandomness {
        RequestRandomness {
            state: VrfClientState { result: 0, ..self.state },
            game: GameState { joinee: Some(self.joinee), ..self.game },
            escrow_token_account: TokenAccount {
                amount: (self.escrow_token_account.amount + self.game.bet_amount) as u64,
            },
            user_token_account: TokenAccount {
                amount: (self.user_token_account.amount - self.game.bet_amount) as u64,
            },
            ..self
        }
    }

    /// The records after a join: changed only when the join went through.
    pub open spec fn after(
        self,
        requested: Result<(), OracleUnavailable>,
        now: i64,
    ) -> RequestRandomness {
        if self.outcome(requested, now) is Ok {
            self.joined()
        } else {
            self
        }
    }

    /// Checks what must hold before the oracle is asked for a draw.
    pub fn validate(&self, _params: &RequestRandomnessParams) -> (checked: Result<
        (),
        VrfClientErrorCode,
    >)
        ensures
            checked == match self.refusal() {
                Some(code) => Err::<(), VrfClientErrorCode>(code),
                None => Ok(()),
            },
    {
        if self.state.vrf != self.vrf.key {
            return Err(VrfClientErrorCode::InvalidVrfAccount);
        }
        if self.game.joinee.is_some() || self.game.result.is_some() {
            return Err(VrfClientErrorCode::GameNotOpen);
        }
        Ok(())
    }

    /// Joins the match at time `now`, given in `requested` what the oracle
    /// answered to the request for a draw.
    ///
    /// The request comes first: when the oracle did not take it, nothing
    /// else is done. Then the client state is set to await a draw, the
    /// caller becomes the second participant and the stake moves from the
    /// caller's balance into escrow. When the ledger refuses the transfer
    /// nothing is changed.
    pub fn actuate(
        ctx: &mut RequestRandomness,
        params: &RequestRandomnessParams,
        requested: Result<(), OracleUnavailable>,
        now: i64,
    ) -> (out: Result<RandomnessRequested, GameError>)
        ensures
            out == old(ctx).outcome(requested, now),
            *final(ctx) == old(ctx).after(requested, now),
    {
        if let Err(code) = ctx.validate(params) {
            return Err(GameError::Client(code));
        }
        if requested.is_err() {
            return Err(GameError::OracleUnavailable);
        }
        let stake = ctx.game.bet_amount;
        if let Err(refusal) = transfer(
            &mut ctx.user_token_account,
            &mut ctx.escrow_token_account,
            stake,
        ) {
            return Err(GameError::Ledger(refusal));
        }
        ctx.state.result = 0;
        ctx.game.joinee = Some(ctx.joinee);
        Ok(
            RandomnessRequested {
                vrf_client: ctx.state_key,
                max_result: ctx.state.max_result,
                timestamp: now,
            },
        )
    }
}

} // verus!
