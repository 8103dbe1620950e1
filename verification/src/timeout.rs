//! The timeout: a call that has not resolved after the configured duration
//! fails, and the failure says what that duration was.

use vstd::prelude::*;
use crate::duration::Duration;
use crate::failure::TimeoutError;
use crate::poll::{Async, Poll};

verus! {

/// What a call under a timeout of `limit` reports when the stage below
/// reports `inner` and the call has waited for `waited`. The stage below is
/// heard first: its answer or its failure goes through even when it comes
/// late. Only a call still without an answer runs out of time.
pub open spec fn timed<T, E>(limit: Duration, inner: Poll<T, E>, waited: Duration) -> Poll<
    T,
    TimeoutError<E>,
> {
    match inner {
        Ok(Async::Ready(value)) => Ok(Async::Ready(value)),
        Err(e) => Err(TimeoutError::Error(e)),
        Ok(Async::NotReady) => if waited.as_nanos() >= limit.as_nanos() {
            Err(TimeoutError::Timeout(limit))
        } else {
            Ok(Async::NotReady)
        },
    }
}

/// Wraps a service and gives each call to it a set time.
pub struct Timeout<S> {
    inner: S,
    duration: Duration,
}

impl<S> Timeout<S> {
    /// The service inside.
    pub closed spec fn service(self) -> S {
        self.inner
    }

    pub closed spec fn spec_duration(self) -> Duration {
        self.duration
    }

    pub fn new(inner: S, duration: Duration) -> (timeout: Self)
        ensures
            timeout.service() == inner,
            timeout.spec_duration() == duration,
    {
        Timeout { inner, duration }
    }

    /// The time that each call is given.
    pub fn duration(&self) -> (duration: Duration)
        ensures
            duration == self.spec_duration(),
    {
        self.duration
    }

    pub fn get_ref(&self) -> (service: &S)
        ensures
            *service == self.service(),
    {
        &self.inner
    }

    pub fn get_mut(&mut self) -> (service: &mut S)
        ensures
            *service == old(self).service(),
            final(self).service() == *final(service),
            final(self).spec_duration() == old(self).spec_duration(),
    {
        &mut self.inner
    }

    pub fn into_inner(self) -> (service: S)
        ensures
            service == self.service(),
    {
        self.inner
    }

    /// What the timeout answers when polled for readiness: what the stage
    /// below answered. Readiness is not timed.
    pub fn poll_ready<E>(&self, inner: Poll<(), E>) -> (ready: Poll<(), TimeoutError<E>>)
        ensures
            match inner {
                Ok(state) => ready == Ok::<_, TimeoutError<E>>(state),
                Err(e) => ready == Err::<Async<()>, _>(TimeoutError::Error(e)),
            },
    {
        match inner {
            Ok(state) => Ok(state),
            Err(e) => Err(TimeoutError::Error(e)),
        }
    }

    /// What a call reports when the stage below reports `inner` and the call
    /// has waited for `waited`.
    pub fn poll<T, E>(&self, inner: Poll<T, E>, waited: Duration) -> (polled: Poll<
        T,
        TimeoutError<E>,
    >)
        ensures
            polled == timed(self.spec_duration(), inner, waited),
    {
        match inner {
            Ok(Async::Ready(value)) => Ok(Async::Ready(value)),
            Err(e) => Err(TimeoutError::Error(e)),
            Ok(Async::NotReady) => if self.duration.reached_by(&waited) {
                Err(TimeoutError::Timeout(self.duration))
            } else {
                Ok(Async::NotReady)
            },
        }
    }
}

/// A call that is still without an answer when its time is up fails with a
/// timeout that reports the configured duration, and no other.
pub proof fn expiry_reports_the_configured_duration<T, E>(limit: Duration, waited: Duration)
    requires
        waited.as_nanos() >= limit.as_nanos(),
    ensures
        timed::<T, E>(limit, Ok(Async::NotReady), waited) == Err::<Async<T>, _>(
            TimeoutError::<E>::Timeout(limit),
        ),
{
}

} // verus!
