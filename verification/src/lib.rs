//! A promise library: one-shot resolvable values with chained continuations,
//! multi-promise join combinators, and a poll-based bridge that turns
//! background computations into promises.
//!
//! The state machine that governs resolution and continuation queueing lives
//! in [`state`] and is specified exactly over a mathematical model. A
//! [`promise::Promise`] is a shared handle to one such state; many handles may
//! observe a single resolution.

pub mod state;
pub mod promise;
pub mod joins;
pub mod runner;
pub mod laws;

pub use promise::Promise;
pub use state::PromiseError;
pub use joins::{join, join3, join_all, Joinable};
pub use runner::AsyncRunner;
