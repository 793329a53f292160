//! The records that the protocol keeps.

pub mod liquidator_state;
pub mod pool_state;
pub mod pubkey;
pub mod treasury_state;
