//! Exit codes understood by the virtual-machine monitor's debug-exit device.
//!
//! The exit primitive itself is a port write repeated forever; it never
//! returns and touches no state this library models, so only the code values
//! are defined here.

use vstd::prelude::*;

verus! {

/// Status reported to the virtual-machine monitor when the kernel stops.
#[derive(Clone, Copy, Debug, PartialEq, Eq, Structural)]
pub enum ExitCode {
    Success,
    Failed,
}

impl ExitCode {
    /// The numeric value the debug-exit device expects for this code.
    pub fn code(self) -> (r: u32)
        ensures
            self is Success ==> r == 1,
            self is Failed ==> r == 2,
    {
        match self {
            ExitCode::Success => 1,
            ExitCode::Failed => 2,
        }
    }
}

} // verus!
