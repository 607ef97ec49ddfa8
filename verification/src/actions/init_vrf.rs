//! Setting up: a payer records which oracle account is theirs.

use crate::error::{GameError, VrfClientErrorCode};
use crate::pubkey::Pubkey;
use crate::state::{VRFKey, VrfClientState};
use vstd::prelude::*;

verus! {

/// What the payer chooses: nothing.
#[derive(Clone, Copy, Debug, PartialEq, Eq, Structural)]
pub struct InitVrfParams {

}

/// The records the set-up works on.
#[derive(Clone, Copy, Debug, PartialEq, Eq)]
pub struct InitVrf {
    /// The record that is to remember the oracle account.
    pub state: VRFKey,
    /// The client state allocated for the oracle account.
    pub vrf_state: VrfClientState,
    /// The address of the oracle account.
    pub vrf: Pubkey,
    /// Who sets it up.
    pub payer: Pubkey,
}

impl InitVrf {
    /// The records after the set-up: the record remembers the oracle
    /// account, and nothing else has changed.
    pub open spec fn after(self) -> InitVrf {
        InitVrf { state: VRFKey { key: self.vrf }, ..self }
    }

    /// The set-up needs no check before it is made.
    pub fn validate(&self, _params: &InitVrfParams) -> (checked: Result<(), VrfClientErrorCode>)
        ensures
            checked == Ok::<(), VrfClientErrorCode>(()),
    {
        Ok(())
    }

    /// Records the oracle account's address.
    pub fn actuate(ctx: &mut InitVrf, _params: &InitVrfParams) -> (out: Result<(), GameError>)
        ensures
            out == Ok::<(), GameError>(()),
            *final(ctx) == old(ctx).after(),
    {
        ctx.state.key = ctx.vrf;
        Ok(())
    }
}

} // verus!
