//! A session proxy for a word-guessing game: one independent session per
//! user, correlation of asynchronous downstream replies with the request
//! that caused them, and watchdog-based recovery when a reply never comes.
//!
//! The crate is organised after the components of the design:
//! message and session data types, the session registry, the proxy state
//! machine, the reply correlator, the read-only query surface, and the
//! proved laws of the whole machine.

pub mod correlator;
pub mod io;
pub mod laws;
pub mod proxy;
pub mod query;
pub mod registry;
pub mod words;

pub use words::is_word_lowercase;
