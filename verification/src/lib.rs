//! Detection and reporting core of the ShieldDesk endpoint agent.
//!
//! The agent watches a host (process and file events, DNS queries, files on
//! disk), decides what is suspicious, and tells a backend. This crate holds the
//! decisions and the shape of what is sent; reading the host and talking to the
//! network is left to the program around it.

pub mod bignat;
pub mod config;
pub mod digest;
pub mod dns;
pub mod entropy;
pub mod error;
pub mod mac;
pub mod orchestrator;
pub mod platform;
pub mod reporter;
pub mod scan;
pub mod stamp;
pub mod text;
pub mod windows;
