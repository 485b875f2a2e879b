//! A privacy-preserving banking ledger and a blackjack game whose sensitive
//! state (balances, card hands, deck order) lives in ciphertexts that only a
//! multi-party-computation (MPC) cluster can transform.
//!
//! The crate is organised in three layers:
//!
//! - [`codec`]: the bit-packing of decks and hands into fixed-width integers,
//!   and the blackjack hand-value rule.
//! - [`circuits`]: the confidential circuits, written over the decrypted
//!   values they see inside the secure computation. Encryption and decryption
//!   happen only in the MPC network, so each circuit here is a pure function
//!   from plain values to plain values.
//! - [`protocol`], [`banking`], [`blackjack`]: the on-chain state machine.
//!   Every action is split into a synchronous queue phase, which validates
//!   preconditions and assembles the ordered argument list for the MPC
//!   network, and an asynchronous callback phase, which applies the
//!   computation's outputs to the persistent record.

pub mod codec;
pub mod circuits;
pub mod protocol;
pub mod banking;
pub mod blackjack;
