//! The records that persist between actions.

use crate::bytes::{lemma_zeroed_unique, zero_bytes, zeroed};
use crate::draw::number_drawn;
use crate::events::VrfClientUpdated;
use crate::pubkey::Pubkey;
use vstd::prelude::*;

verus! {

/// The cap on the upper bound of a draw, and the bound used when none is
/// given.
pub const MAX_RESULT: u64 = 1337;

/// One match: who plays, for how much, and how it ended.
#[derive(Clone, Copy, Debug, PartialEq, Eq)]
pub struct GameState {
    /// Who created the match.
    pub owner: Pubkey,
    /// The parity the owner bets on: 0 or 1.
    pub owner_choice: u64,
    /// The second participant, once there is one.
    pub joinee: Option<Pubkey>,
    /// Who won, once the match is settled.
    pub winner: Option<Pubkey>,
    /// What each participant puts in.
    pub bet_amount: u64,
    /// The parity that was drawn, once the match is settled.
    pub result: Option<u64>,
    /// When the match was created.
    pub room_creation_time: i64,
    /// Whether the pot has left escrow.
    pub payout_disbursed: bool,
}

impl GameState {
    /// What a valid record satisfies: a positive stake, a choice of 0 or 1, a
    /// winner exactly when there is a result, neither result nor payout
    /// before a second participant, and as winner the owner when the parity
    /// drawn is the owner's choice, the second participant when it is not.
    pub open spec fn wf(self) -> bool {
        &&& self.bet_amount > 0
        &&& self.owner_choice <= 1
        &&& (self.winner is Some <==> self.result is Some)
        &&& (self.result is Some ==> self.joinee is Some)
        &&& (self.payout_disbursed ==> self.joinee is Some)
        &&& (self.result matches Some(parity) ==> parity <= 1 && self.winner == Some(
            self.winner_for(parity),
        ))
    }

    /// Who wins when `parity` is drawn.
    pub open spec fn winner_for(self, parity: u64) -> Pubkey
        recommends
            self.joinee is Some,
    {
        if parity == self.owner_choice {
            self.owner
        } else {
            self.joinee->0
        }
    }

    /// Whether nobody has joined and nothing is settled.
    pub open spec fn open(self) -> bool {
        self.joinee is None && self.result is None
    }

    /// Whether the match is over for a settlement: it has its result, or its
    /// pot was paid.
    pub open spec fn closed(self) -> bool {
        self.result is Some || self.payout_disbursed
    }

    /// Both stakes together.
    pub open spec fn pot(self) -> int {
        2 * self.bet_amount
    }

    /// Both stakes together, unless that is more than a balance can hold.
    pub fn stakes(&self) -> (pot: Option<u64>)
        ensures
            match pot {
                Some(pot) => pot == self.pot(),
                None => self.pot() > u64::MAX,
            },
    {
        self.bet_amount.checked_mul(2)
    }
}

/// The state kept for one oracle account: the last buffer consumed from it
/// and the number drawn from that buffer.
#[derive(Clone, Copy, Debug, PartialEq, Eq)]
pub struct VrfClientState {
    /// The nonce of this record's address.
    pub bump: u8,
    /// The largest number a draw can give.
    pub max_result: u64,
    /// The last buffer consumed; all zero while none was.
    pub result_buffer: [u8; 32],
    /// The last number drawn; 0 while a draw is awaited.
    pub result: u128,
    /// When the last buffer was consumed.
    pub timestamp: i64,
    /// The oracle account this state is bound to.
    pub vrf: Pubkey,
}

impl VrfClientState {
    /// What a valid record satisfies: a bound between 1 and the cap, and a
    /// number drawn that is no larger than the bound.
    pub open spec fn wf(self) -> bool {
        &&& 1 <= self.max_result <= MAX_RESULT
        &&& self.result <= self.max_result
    }

    /// Whether a number has been drawn since the last request.
    pub open spec fn drawn(self) -> bool {
        self.result != 0
    }

    /// Whether `buffer` is a delivered buffer that was not consumed yet:
    /// neither all zero nor the buffer stored.
    pub open spec fn fresh(self, buffer: [u8; 32]) -> bool {
        !zeroed(buffer) && buffer != self.result_buffer
    }

    /// Whether consuming `buffer` changes the record: the buffer is fresh and
    /// gives another number than the one stored.
    pub open spec fn advances(self, buffer: [u8; 32]) -> bool {
        self.fresh(buffer) && self.result != number_drawn(buffer, self.max_result)
    }

    /// The record after `buffer` is consumed at time `now`.
    pub open spec fn after_consuming(self, buffer: [u8; 32], now: i64) -> VrfClientState {
        if self.advances(buffer) {
            VrfClientState {
                result_buffer: buffer,
                result: number_drawn(buffer, self.max_result) as u128,
                timestamp: now,
                ..self
            }
        } else {
            self
        }
    }

    /// The report of consuming `buffer` at time `now` for the record at
    /// `state_key`: there is one when the record changes.
    pub open spec fn report(self, state_key: Pubkey, buffer: [u8; 32], now: i64) -> Option<
        VrfClientUpdated,
    > {
        if self.advances(buffer) {
            Some(
                VrfClientUpdated {
                    vrf_client: state_key,
                    max_result: self.max_result,
                    result_buffer: buffer,
                    result: number_drawn(buffer, self.max_result) as u128,
                    timestamp: now,
                },
            )
        } else {
            None
        }
    }

    /// Stores the fresh `buffer` and the `number` it gives, when the number
    /// is not the one stored.
    pub(crate) fn record(
        &mut self,
        state_key: Pubkey,
        buffer: &[u8; 32],
        number: u128,
        now: i64,
    ) -> (update: Option<VrfClientUpdated>)
        requires
            old(self).fresh(*buffer),
            number == number_drawn(*buffer, old(self).max_result),
        ensures
            *final(self) == old(self).after_consuming(*buffer, now),
            update == old(self).report(state_key, *buffer, now),
    {
        if self.result != number {
            self.result_buffer = *buffer;
            self.result = number;
            self.timestamp = now;
            Some(
                VrfClientUpdated {
                    vrf_client: state_key,
                    max_result: self.max_result,
                    result_buffer: *buffer,
                    result: number,
                    timestamp: now,
                },
            )
        } else {
            None
        }
    }
}

impl Default for VrfClientState {
    /// The record as it is allocated: every field zero.
    fn default() -> (state: VrfClientState)
        ensures
            state == (VrfClientState {
                bump: 0,
                max_result: 0,
                result_buffer: zero_bytes(),
                result: 0,
                timestamp: 0,
                vrf: Pubkey { bytes: zero_bytes() },
            }),
    {
        let result_buffer = [0u8; 32];
        proof {
            lemma_zeroed_unique(result_buffer);
        }
        VrfClientState {
            bump: 0,
            max_result: 0,
            result_buffer,
            result: 0,
            timestamp: 0,
            vrf: Pubkey::default(),
        }
    }
}

/// The record that remembers which oracle account a payer set up.
#[derive(Clone, Copy, Debug, PartialEq, Eq)]
pub struct VRFKey {
    pub key: Pubkey,
}

/// What the game reads of an oracle account: its address, who may ask it for
/// a draw, and the buffer it last delivered (all zero while it has delivered
/// none).
#[derive(Clone, Copy, Debug, PartialEq, Eq)]
pub struct VrfAccount {
    pub key: Pubkey,
    pub authority: Pubkey,
    pub result_buffer: [u8; 32],
}

} // verus!
