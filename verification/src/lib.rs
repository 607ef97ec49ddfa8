//! A two-party wager settled by a verifiable random draw.
//!
//! An owner creates a match and puts a stake into escrow; a second
//! participant joins with the same stake and a draw is asked of an oracle;
//! the buffer the oracle delivers gives a number whose parity decides the
//! winner, who is paid the pot: with the settlement in the game of
//! [`vrf_client`], on a claim in the game of [`vrf`]. Every action works on
//! plain records and either goes through whole or changes nothing.

pub mod actions;
pub mod bytes;
pub mod draw;
pub mod error;
pub mod events;
pub mod laws;
pub mod ledger;
pub mod pubkey;
pub mod seeds;
pub mod state;
pub mod vrf;
pub mod vrf_client;

pub use actions::claim_reward::{Claim, ClaimReward, ClaimRewardParams};
pub use actions::consume_randomness::{ConsumeRandomness, ConsumeRandomnessParams, Settlement};
pub use actions::init_client::{InitClient, InitClientParams};
pub use actions::init_vrf::{InitVrf, InitVrfParams};
pub use actions::request_randomness::{RequestRandomness, RequestRandomnessParams};
pub use error::{GameError, OracleUnavailable, VrfClientErrorCode};
pub use events::{RandomnessRequested, VrfClientCreated, VrfClientUpdated};
pub use ledger::{LedgerError, TokenAccount};
pub use pubkey::Pubkey;
pub use state::{GameState, VRFKey, VrfAccount, VrfClientState, MAX_RESULT};
