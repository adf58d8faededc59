//! How far a command has got.

use vstd::prelude::*;

verus! {

/// Whether a command is still running.
#[derive(Debug, Clone, Copy, PartialEq, Eq, Structural)]
pub enum BlockStatus {
    Running,
    Finished,
}

} // verus!
