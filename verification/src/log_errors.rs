//! The outermost stage: it tells the operator, in one line, why a pipeline
//! is not ready, and hands the failure on as it came.

use vstd::prelude::*;
use vstd::string::*;
use crate::failure::{Failure, LogError, TimeoutError};
use crate::poll::Poll;

verus! {

/// The message for a binding that timed out, given the duration as text.
pub open spec fn timed_out_text(after: Seq<char>) -> Seq<char> {
    "binding timed out after "@ + after
}

/// Writes the message for a binding that timed out after `after`.
pub fn timed_out_message(after: &str) -> (text: String)
    ensures
        text@ == timed_out_text(after@),
{
    let mut text = String::from_str("binding timed out after ");
    text.append(after);
    text
}

/// A failure as the operator reads it. Where the innermost cause is a
/// timeout, the message says so and after how long; any other failure is
/// shown in debug form, as the stage below the timeout reported it.
pub open spec fn human_text<E: Failure>(e: TimeoutError<E>) -> Seq<char> {
    match e {
        TimeoutError::Timeout(after) => timed_out_text(after.debug_text()),
        TimeoutError::Error(inner) => match inner.timed_out() {
            Some(after) => timed_out_text(after.debug_text()),
            None => inner.debug_text(),
        },
    }
}

/// Renders `e` for the operator.
pub fn humanize<E: Failure>(e: &TimeoutError<E>) -> (text: String)
    ensures
        text@ == human_text(*e),
{
    match e {
        TimeoutError::Timeout(after) => timed_out_message(after.debug().as_str()),
        TimeoutError::Error(inner) => match inner.innermost_timeout() {
            Some(after) => timed_out_message(after.debug().as_str()),
            None => inner.render(),
        },
    }
}

/// The line that goes to the log for a failure that reads `human`.
pub open spec fn log_line(human: Seq<char>) -> Seq<char> {
    "bind service error: "@ + human
}

/// Wraps a service and reports its readiness failures.
pub struct LogErrors<S> {
    inner: S,
}

impl<S> LogErrors<S> {
    /// The service inside.
    pub closed spec fn service(self) -> S {
        self.inner
    }

    pub fn new(service: S) -> (wrapper: Self)
        ensures
            wrapper.service() == service,
    {
        LogErrors { inner: service }
    }

    pub fn get_ref(&self) -> (service: &S)
        ensures
            *service == self.service(),
    {
        &self.inner
    }

    pub fn get_mut(&mut self) -> (service: &mut S)
        ensures
            *service == old(self).service(),
            final(self).service() == *final(service),
    {
        &mut self.inner
    }

    pub fn into_inner(self) -> (service: S)
        ensures
            service == self.service(),
    {
        self.inner
    }

    /// Looks at what the service inside answered when polled for readiness.
    /// The answer goes back to the caller unchanged; with a failure goes the
    /// line to log at error severity, and with any other answer none.
    pub fn poll_ready(&self, ready: Poll<(), LogError>) -> (out: (Poll<(), LogError>, Option<String>))
        ensures
            out.0 == ready,
            match ready {
                Ok(_) => out.1 is None,
                Err(e) => out.1 matches Some(line) && line@ == log_line(human_text(e)),
            },
    {
        let line = match &ready {
            Ok(_) => None,
            Err(e) => {
                let mut line = String::from_str("bind service error: ");
                line.append(humanize(e).as_str());
                Some(line)
            },
        };
        (ready, line)
    }
}

} // verus!
