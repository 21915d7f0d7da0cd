//! The handle through which the application runs commands.

use vstd::prelude::*;

verus! {

/// Runs commands. It holds no state.
#[derive(Debug, Clone, Copy, PartialEq, Eq, Structural)]
pub struct ShellExecutor {}

impl ShellExecutor {
    /// An executor.
    pub fn new() -> (e: ShellExecutor)
        ensures
            e == (ShellExecutor {  }),
    {
        ShellExecutor {  }
    }
}

} // verus!
