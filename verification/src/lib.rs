//! Verified core of a betting program that runs on a ledger host.
//!
//! The program receives a compact binary instruction and a positional list
//! of accounts, and answers with the one token transfer that the host is to
//! carry out on its behalf. Staking is authorized by the sender's own
//! signature; a reward is paid out under a program-derived address, an
//! address without a private key that the host re-derives from a seed and a
//! nonce.
//!
//! Everything here is a function from plain values to plain values. Talking
//! to the host (reading the accounts, issuing the cross-program call) is left
//! to the caller.

pub mod error;
pub mod instruction;
pub mod account;
pub mod invocation;
pub mod host;
pub mod processor;
