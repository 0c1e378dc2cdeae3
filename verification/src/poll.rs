use vstd::prelude::*;

verus! {

/// The status of a background task at the moment it was polled.
#[derive(Debug, PartialEq, Eq)]
pub enum Poll<T> {
    /// The task has produced this value.
    Ready(T),
    /// The task has not produced a value yet.
    Pending,
}

impl<T> Poll<T> {
    /// Whether a value is available.
    pub fn is_ready(&self) -> (b: bool)
        ensures
            b == (self is Ready),
    {
        match self {
            Poll::Ready(_) => true,
            Poll::Pending => false,
        }
    }

    /// Whether the task is still running.
    pub fn is_pending(&self) -> (b: bool)
        ensures
            b == (self is Pending),
    {
        match self {
            Poll::Ready(_) => false,
            Poll::Pending => true,
        }
    }
}

} // verus!
