//! A chat server whose instances share rooms through Redis, and a load generator for it.
//!
//! This crate decides; it does no I/O of its own. The server is `config`, `readiness`,
//! `subscriber`, `message`, `session` and `metrics`, the load generator `bench`, `latency` and
//! `report`. What goes on over time, such as a session, is a state machine that takes events and
//! answers with actions.

pub mod bench;
pub mod bench_laws;
pub mod clock;
pub mod config;
pub mod ident;
pub mod latency;
pub mod message;
pub mod metrics;
pub mod readiness;
pub mod report;
pub mod session;
pub mod session_laws;
pub mod subscriber;
pub mod text;
