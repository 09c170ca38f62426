//! A two-tier key-value service: an in-memory store served over RPC, and a
//! gateway that validates HTTP-facing requests, connects to the store with
//! bounded exponential backoff, and translates RPC outcomes into HTTP replies.

pub mod backend;
pub mod gateway;
pub mod protocol;
pub mod retry;
pub mod store;
