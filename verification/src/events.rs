//! What the actions report to the outside world.

use crate::pubkey::Pubkey;
use vstd::prelude::*;

verus! {

/// A match and its client state were created.
#[derive(Clone, Copy, Debug, PartialEq, Eq)]
pub struct VrfClientCreated {
    pub vrf_client: Pubkey,
    pub max_result: u64,
    pub timestamp: i64,
}

/// A second participant joined and a draw was asked for.
#[derive(Clone, Copy, Debug, PartialEq, Eq)]
pub struct RandomnessRequested {
    pub vrf_client: Pubkey,
    pub max_result: u64,
    pub timestamp: i64,
}

/// A delivered buffer was consumed and gave a new number.
#[derive(Clone, Copy, Debug, PartialEq, Eq)]
pub struct VrfClientUpdated {
    pub vrf_client: Pubkey,
    pub max_result: u64,
    pub result_buffer: [u8; 32],
    pub result: u128,
    pub timestamp: i64,
}

} // verus!
