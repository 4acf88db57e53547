//! A number-guessing lottery settled against a randomness oracle.
//!
//! A bettor attaches a stake and names a byte. The contract asks an oracle for
//! its latest round of randomness; when the guess equals the second byte of
//! that randomness, the whole balance of the contract goes to the bettor, who
//! is recorded as the last winner.
//!
//! The library holds the rules of the game over plain values: the two
//! persisted records, the messages, and the transition that one bet makes.
//! Talking to the chain (storage, the oracle, the bank) is left to the caller,
//! who hands in what the chain answered.

pub mod chain;
pub mod contract;
pub mod error;
pub mod laws;
pub mod msg;
pub mod rules;
pub mod state;
