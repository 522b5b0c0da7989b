//! A two-party atomic-swap escrow: an initializer locks a deposit in a vault
//! controlled by a key-less derived authority, and either takes it back
//! (cancel) or hands it to a taker against the agreed counter-deposit
//! (exchange).
pub mod address;
pub mod error;
pub mod seeds;
pub mod state;
pub mod instructions;
pub mod laws;
