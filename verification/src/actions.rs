//! The actions of the game, each on the records it touches.

pub mod claim_reward;
pub mod consume_randomness;
pub mod init_client;
pub mod init_vrf;
pub mod request_randomness;
