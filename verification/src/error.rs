//! What an action can fail with.

use crate::ledger::LedgerError;
use vstd::prelude::*;

verus! {

/// The game's own refusals.
#[derive(Clone, Copy, Debug, PartialEq, Eq, Structural)]
pub enum VrfClientErrorCode {
    /// The oracle account's authority is not the client state.
    InvalidVrfAuthorityError,
    /// The upper bound of the draw is above the cap.
    MaxResultExceedsMaximum,
    /// The oracle account presented is not the one the client state is bound to.
    InvalidVrfAccount,
    /// The account presented is not an oracle account at all.
    InvalidSwitchboardAccount,
    /// The game already has a second participant, or a result.
    GameNotOpen,
}

impl VrfClientErrorCode {
    /// The sentence shown to a caller.
    pub fn message(&self) -> (text: &'static str)
        ensures
            text@ == match *self {
                VrfClientErrorCode::InvalidVrfAuthorityError => {
                    "Switchboard VRF Account's authority should be set to the client's state pubkey"@
                },
                VrfClientErrorCode::MaxResultExceedsMaximum => {
                    "The max result must not exceed u64"@
                },
                VrfClientErrorCode::InvalidVrfAccount => "Invalid VRF account provided."@,
                VrfClientErrorCode::InvalidSwitchboardAccount => {
                    "Not a valid Switchboard account"@
                },
                VrfClientErrorCode::GameNotOpen => {
                    "The game already has a second participant or a result"@
                },
            },
    {
        match self {
            VrfClientErrorCode::InvalidVrfAuthorityError => {
                "Switchboard VRF Account's authority should be set to the client's state pubkey"
            },
            VrfClientErrorCode::MaxResultExceedsMaximum => "The max result must not exceed u64",
            VrfClientErrorCode::InvalidVrfAccount => "Invalid VRF account provided.",
            VrfClientErrorCode::InvalidSwitchboardAccount => "Not a valid Switchboard account",
            VrfClientErrorCode::GameNotOpen => {
                "The game already has a second participant or a result"
            },
        }
    }
}

/// The oracle did not take a request for a draw.
#[derive(Clone, Copy, Debug, PartialEq, Eq, Structural)]
pub struct OracleUnavailable;

/// Why an action was abandoned. Nothing has changed when one is returned.
#[derive(Clone, Copy, Debug, PartialEq, Eq, Structural)]
pub enum GameError {
    /// The game refused the action.
    Client(VrfClientErrorCode),
    /// The ledger refused a transfer.
    Ledger(LedgerError),
    /// The oracle did not take the request for a draw.
    OracleUnavailable,
}

} // verus!
