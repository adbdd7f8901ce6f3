//! Preparation of a token swap through a decentralised-exchange router:
//! the deadline of the swap, unit conversion of balances, the parameters of
//! the swap call and their ABI encoding, the assembly of the transaction
//! request, and the stages a submission runs through.
//!
//! Everything here computes on plain values. Talking to a node, signing and
//! printing are left to the caller.

pub mod accounts;
pub mod address;
pub mod amount;
pub mod config;
pub mod deadline;
pub mod error;
pub mod swap;
pub mod transaction;
pub mod workflow;
