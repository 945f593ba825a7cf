//! A rate-limited token faucet: instruction decoding, derived-address checks,
//! admin authorization and the cooldown rules of each claim, stated and proved.
//! The program's effects on the host (account creation, the token transfer,
//! record writes) are returned as values for the host glue to carry out.

pub mod address;
pub mod state;
pub mod codec;
pub mod token;
pub mod faucet;
pub mod processor;

pub use address::Address;
pub use processor::{AccountInput, Effect, process_instruction};
pub use state::{FaucetConfig, FaucetError, FaucetInstruction, UserClaimedRecord};
