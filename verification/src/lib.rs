//! A message-driven counter contract.
//!
//! The contract keeps one signed counter and one ownership record in a
//! two-slot persistent region, dispatches initialization, command and query
//! messages to the matching handler, and forwards exchange-rate queries to an
//! external oracle through a prepared cross-system request. Every handler is
//! a function from the region and the message to the new region and a
//! response envelope, so the state machine can be exercised against any host.

pub mod contract;
pub mod error;
pub mod msg;
pub mod oracle;
pub mod ownership;
pub mod state;
pub mod text;
