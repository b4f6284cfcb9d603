//! Verified core of an interactive single-file secure-copy tool.
//!
//! The crate models the two parts of the tool that carry real control flow:
//! the ordered authentication negotiation (key candidates first, then a
//! single password attempt) and the chunked, progress-observable file
//! transfer loop with its four-step channel shutdown. Terminal prompting,
//! styling, and the secure-transport primitives themselves are collaborators
//! that a thin driver supplies; the decisions between those calls live here,
//! as verified state machines and pure functions.

pub mod auth;
pub mod config;
pub mod transfer;
