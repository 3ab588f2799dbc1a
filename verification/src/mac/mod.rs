//! The modules of the macOS agent.

pub mod daemon;
pub mod esf;
pub mod scanner;
