//! The modules of the Windows agent.

pub mod etw;
pub mod scanner;
pub mod service;
