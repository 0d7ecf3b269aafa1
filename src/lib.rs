//! Runs a command again and again until it succeeds (or, inverted, until it
//! fails), with a fixed or exponentially growing pause between attempts.
//!
//! The library holds the decisions: the configuration, the pause policy, the
//! per-attempt environment and log text, and the state machine that decides
//! after each attempt whether to stop or to sleep and go again. Launching the
//! process, sleeping and printing are left to the caller.
pub mod config;
pub mod retry;
pub mod text;
pub mod model;
