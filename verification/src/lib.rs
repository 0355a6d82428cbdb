//! Verified command core for a system-contract CLI: argument validators, a
//! command schema registry, a dispatcher that turns a (group, operation) path
//! and a bag of raw flags into a typed contract call, and a result reporter.
//!
//! The RPC transport, ABI encoding and signing are external collaborators;
//! this crate decides *what* call to make and proves that decision correct.

pub mod args;
pub mod command;
pub mod dispatch;
pub mod errors;
pub mod laws;
pub mod names;
pub mod report;
pub mod resolve;
pub mod schema;
pub mod validate;
