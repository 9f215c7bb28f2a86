//! Escrow of native coins and fungible tokens, held between a depositing
//! party and a client and released or refunded under a governance
//! configuration.
//!
//! The crate is a state-transition engine: every request is applied to a
//! [`state::Store`] as one atomic step that either commits all of its changes
//! and hands back the outbound transfer instructions, or fails and leaves the
//! store as it was.

pub mod balance;
pub mod contract;
pub mod error;
pub mod msg;
pub mod state;
pub mod transfer;
