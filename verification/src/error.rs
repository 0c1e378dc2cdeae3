use vstd::prelude::*;

verus! {

/// A timeout occurred on a timed asynchronous task.
#[derive(Debug, PartialEq, Eq, Structural, Clone, Copy)]
pub struct TimeoutError;

impl TimeoutError {
    /// The message that describes this error.
    pub fn message(&self) -> (s: &'static str)
        ensures
            s@ == "the future has timed out"@,
    {
        "the future has timed out"
    }
}

} // verus!
