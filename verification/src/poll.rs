//! What one poll of a stage can report.

use vstd::prelude::*;

verus! {

/// The stage either has a value, or has none yet and will wake its caller.
#[derive(Clone, Copy, Debug, PartialEq, Eq)]
pub enum Async<T> {
    Ready(T),
    NotReady,
}

/// The result of a poll: a value, not yet, or a failure.
pub type Poll<T, E> = Result<Async<T>, E>;

impl<T> Async<T> {
    pub fn is_ready(&self) -> (b: bool)
        ensures
            b == (*self is Ready),
    {
        match self {
            Async::Ready(_) => true,
            Async::NotReady => false,
        }
    }
}

} // verus!
