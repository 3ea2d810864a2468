//! Fault capture for the task loops.
//!
//! Any task-level operation is wrapped by [`ErrorManager::run`]: a hard
//! failure becomes a sticky fault flag plus continued execution, so the
//! system degrades instead of halting.  The indicator task reads the flag
//! through [`ErrorManager::has_error`]; nothing ever clears it
//! automatically.

use vstd::prelude::*;

verus! {

/// Faults that task operations can report.
#[derive(Clone, Copy, PartialEq, Eq, Structural, Debug)]
pub enum HydraError {
    /// Bus write or read failure, or a dropped frame.
    Transport,
    /// A payload could not be encoded within its bounded buffer.
    Encode,
    /// An inbound frame could not be decoded as an envelope.
    Decode,
    /// A sensor compensation produced a value outside its representable
    /// range.
    Calculation,
    /// A device was missing required data at startup.
    Resource,
}

/// Sticky process-wide fault flag.
pub struct ErrorManager {
    pub has_error_flag: bool,
}

impl ErrorManager {
    /// A fresh manager with no fault recorded.
    pub fn new() -> (r: ErrorManager)
        ensures
            !r.has_error_flag,
    {
        ErrorManager { has_error_flag: false }
    }

    /// Executes `operation`; on `Err` the fault flag is set, on `Ok`
    /// nothing is cleared — the flag is sticky until explicitly reset.
    /// The operation's result is handed back either way.
    pub fn run<F: FnOnce() -> Result<(), HydraError>>(&mut self, operation: F) -> (r: Result<
        (),
        HydraError,
    >)
        requires
            call_requires(operation, ()),
        ensures
            call_ensures(operation, (), r),
            final(self).has_error_flag == (old(self).has_error_flag || r is Err),
    {
        let result = operation();
        if result.is_err() {
            self.has_error_flag = true;
        }
        result
    }

    /// Non-blocking read of the fault flag.
    pub fn has_error(&self) -> (r: bool)
        ensures
            r == self.has_error_flag,
    {
        self.has_error_flag
    }
}

} // verus!
