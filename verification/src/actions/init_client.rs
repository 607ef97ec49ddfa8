//! Creation: a match and its client state are set up and the owner's stake
//! goes into escrow.

use crate::bytes::zero_bytes;
use crate::error::{GameError, VrfClientErrorCode};
use crate::events::VrfClientCreated;
use crate::ledger::{transfer, transfer_outcome, LedgerError, TokenAccount};
use crate::pubkey::Pubkey;
use crate::state::{GameState, VrfAccount, VrfClientState, MAX_RESULT};
use vstd::prelude::*;

verus! {

/// What the owner hands in.
#[derive(Debug, PartialEq, Eq)]
pub struct InitClientParams {
    /// The largest number a draw can give; 0 stands for the cap.
    pub max_result: u64,
    /// The name of the match.
    pub game_id: String,
    /// The parity the owner bets on.
    pub choice: u64,
    /// What each participant puts in.
    pub bet_amount: u64,
}

impl Clone for InitClientParams {
    fn clone(&self) -> (copy: InitClientParams)
        ensures
            copy.max_result == self.max_result,
            copy.game_id@ == self.game_id@,
            copy.choice == self.choice,
            copy.bet_amount == self.bet_amount,
    {
        InitClientParams {
            max_result: self.max_result,
            game_id: self.game_id.clone(),
            choice: self.choice,
            bet_amount: self.bet_amount,
        }
    }
}

/// The bound that a creation with `max_result` sets: the cap when none is
/// given.
pub open spec fn effective_max_result(max_result: u64) -> u64 {
    if max_result == 0 {
        MAX_RESULT
    } else {
        max_result
    }
}

/// The records a creation works on.
#[derive(Clone, Copy, Debug, PartialEq, Eq)]
pub struct InitClient {
    /// The match to set up.
    pub game: GameState,
    /// The balance the match will hold in escrow.
    pub escrow_token_account: TokenAccount,
    /// The balance the owner pays from.
    pub user_token_account: TokenAccount,
    /// The client state to set up.
    pub state: VrfClientState,
    /// The address of the client state.
    pub state_key: Pubkey,
    /// The nonce of that address.
    pub state_bump: u8,
    /// The oracle account the client state is to be bound to.
    pub vrf: VrfAccount,
    /// Who creates the match.
    pub payer: Pubkey,
}

impl InitClient {
    /// What stands in the way of a creation before anything is done: an
    /// oracle account whose authority is not the client state, then a bound
    /// above the cap.
    pub open spec fn refusal(self, max_result: u64) -> Option<VrfClientErrorCode> {
        if self.vrf.authority != self.state_key {
            Some(VrfClientErrorCode::InvalidVrfAuthorityError)
        } else if max_result > MAX_RESULT {
            Some(VrfClientErrorCode::MaxResultExceedsMaximum)
        } else {
            None
        }
    }

    /// What the ledger answers to the payment of `stake` into escrow.
    pub open spec fn deposit(self, stake: u64) -> Result<(), LedgerError> {
        transfer_outcome(
            self.user_token_account.amount,
            self.escrow_token_account.amount,
            stake as int,
        )
    }

    /// How a creation at time `now` ends.
    pub open spec fn outcome(self, max_result: u64, stake: u64, now: i64) -> Result<
        VrfClientCreated,
        GameError,
    > {
        if let Some(code) = self.refusal(max_result) {
            Err(GameError::Client(code))
        } else if let Err(refusal) = self.deposit(stake) {
            Err(GameError::Ledger(refusal))
        } else {
            Ok(
                VrfClientCreated {
                    vrf_client: self.state_key,
                    max_result: effective_max_result(max_result),
                    timestamp: now,
                },
            )
        }
    }

    /// The records once the match is created at time `now`.
    pub open spec fn created(
        self,
        max_result: u64,
        choice: u64,
        stake: u64,
        now: i64,
    ) -> InitClient {
        InitClient {
            game: GameState {
                owner: self.payer,
                owner_choice: choice,
                joinee: None,
                winner: None,
                bet_amount: stake,
                result: None,
                room_creation_time: now,
                payout_disbursed: false,
            },
            state: VrfClientState {
                bump: self.state_bump,
                max_result: effective_max_result(max_result),
                result_buffer: zero_bytes(),
                result: 0,
                timestamp: 0,
                vrf: self.vrf.key,
            },
            escrow_token_account: TokenAccount {
                amount: (self.escrow_token_account.amount + stake) as u64,
            },
            user_token_account: TokenAccount {
                amount: (self.user_token_account.amount - stake) as u64,
            },
            ..self
        }
    }

    /// The records after a creation: changed only when it went through.
    pub open spec fn after(self, max_result: u64, choice: u64, stake: u64, now: i64) -> InitClient {
        if self.outcome(max_result, stake, now) is Ok {
            self.created(max_result, choice, stake, now)
        } else {
            self
        }
    }

    /// Checks what must hold before anything is created.
    pub fn validate(&self, params: &InitClientParams) -> (checked: Result<(), VrfClientErrorCode>)
        ensures
            checked == match self.refusal(params.max_result) {
                Some(code) => Err::<(), VrfClientErrorCode>(code),
                None => Ok(()),
            },
    {
        if self.vrf.authority != self.state_key {
            return Err(VrfClientErrorCode::InvalidVrfAuthorityError);
        }
        if params.max_result > MAX_RESULT {
            return Err(VrfClientErrorCode::MaxResultExceedsMaximum);
        }
        Ok(())
    }

    /// Creates the match at time `now`.
    ///
    /// The client state is bound to the oracle account, with the bound asked
    /// for or the cap when none is, an all-zero buffer and no number. The
    /// match gets the caller as owner, the choice and the stake, and neither
    /// second participant nor winner nor result. The stake moves from the
    /// caller's balance into escrow. When the ledger refuses the transfer
    /// nothing is changed.
    pub fn actuate(ctx: &mut InitClient, params: &InitClientParams, now: i64) -> (out: Result<
        VrfClientCreated,
        GameError,
    >)
        ensures
            out == old(ctx).outcome(params.max_result, params.bet_amount, now),
            *final(ctx) == old(ctx).after(
                params.max_result,
                params.choice,
                params.bet_amount,
                now,
            ),
    {
        if let Err(code) = ctx.validate(params) {
            return Err(GameError::Client(code));
        }
        if let Err(refusal) = transfer(
            &mut ctx.user_token_account,
            &mut ctx.escrow_token_account,
            params.bet_amount,
        ) {
            return Err(GameError::Ledger(refusal));
        }
        let max_result = if params.max_result == 0 {
            MAX_RESULT
        } else {
            params.max_result
        };
        let mut state = VrfClientState::default();
        state.bump = ctx.state_bump;
        state.vrf = ctx.vrf.key;
        state.max_result = max_result;
        ctx.state = state;
        ctx.game =
        GameState {
            owner: ctx.payer,
            owner_choice: params.choice,
            joinee: None,
            winner: None,
            bet_amount: params.bet_amount,
            result: None,
            room_creation_time: now,
            payout_disbursed: false,
        };
        Ok(VrfClientCreated { vrf_client: ctx.state_key, max_result, timestamp: now })
    }
}

} // verus!
