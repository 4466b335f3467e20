//! A mining client engine: job parsing, nonce search, worker decisions and
//! the shared engine status, with the socket and host plumbing left to callers.
pub mod codec;
pub mod engine;
pub mod job;
pub mod pool;
pub mod search;
pub mod text;
pub mod worker;
