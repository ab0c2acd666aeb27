//! Submission of signed operations to a remote ledger, and the decisions that
//! follow them: how a raw endpoint error is classified, how the two
//! confirmation polls are raced, and how one submission proceeds from the
//! freshest ledger reference to durable acceptance.
pub mod classify;
pub mod config;
pub mod endpoint;
pub mod error;
pub mod ledger;
pub mod submit;
pub mod waiter;
