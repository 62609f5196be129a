//! Ordinary-transaction execution core for a blockchain account runtime.
//!
//! Given an account snapshot, an inbound message, and the block context,
//! the executor runs the phase state machine (storage charge, credit,
//! compute, action, bounce) and produces the new account state together
//! with a transaction record describing exactly what happened.  All fee
//! arithmetic is exact integer arithmetic: every node replaying the same
//! inputs must obtain the same record bit for bit.
//!
//! The stack-machine interpreter itself is an external collaborator: the
//! compute phase consumes its outcome (exit code, gas used, emitted
//! actions) as a plain value, so everything decided here is verified for
//! every possible interpreter outcome.

pub mod config;
pub mod types;
pub mod fees;
pub mod phases;
pub mod actions;
pub mod lt;
pub mod codec;
pub mod stack;
pub mod executor;
pub mod persist;
pub mod laws;
