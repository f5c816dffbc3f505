//! A custodial wallet whose owner authorizes withdrawals and relayed calls by
//! signing a message off-chain; the signature check itself is done by the
//! host's native ed25519 program in a companion instruction, which this
//! library inspects before trusting it.
pub mod message;
pub mod error;
pub mod instruction;
pub mod ed25519;
pub mod wallet;
