//! The two hosts that the agent runs on.

use vstd::prelude::*;

verus! {

/// The host's operating system, as far as the agent's rules depend on it.
#[derive(Debug, Clone, Copy, PartialEq, Eq, Structural)]
pub enum Platform {
    MacOs,
    Windows,
}

} // verus!
