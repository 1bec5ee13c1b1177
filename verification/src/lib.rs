//! A pool of makers for a dashboard.
//!
//! A maker owns a wallet and runs in an execution context of its own. Callers
//! never touch the wallet: they hand a request to the pool, the pool finds the
//! maker, and the request travels to the maker's loop over a channel pair and
//! the response back. Every failure of an operation is a response; only a
//! request that never reached a maker fails.
//!
//! What waits is left to the caller: the library decides each step and the
//! caller performs it on its own scheduler. The modules, from the leaves:
//!
//! - [`message`]: the requests and the responses;
//! - [`wallet`]: what a maker must offer so that requests can be answered;
//! - [`handler`]: how one request is answered on a maker;
//! - [`bidirectional_channel`]: the channel pair and the steps of its two ends;
//! - [`session`]: a channel pair at work, and what holds of every run;
//! - [`registry`]: the model of the pool, and the laws of its operations;
//! - [`maker_pool`]: the maker's loop and the pool;
//! - [`manager`]: named operations on top of the pool.

pub mod bidirectional_channel;
pub mod handler;
pub mod maker_pool;
pub mod manager;
pub mod message;
pub mod registry;
pub mod session;
pub mod wallet;
