//! The admission limiter: a ceiling on the calls that a pipeline has in
//! flight at one time. A call beyond the ceiling is turned away at once.

use vstd::prelude::*;
use crate::failure::{BufferError, InFlightLimitError};
use crate::poll::Poll;

verus! {

/// Whether one more call is admitted while `in_flight` are under way.
pub open spec fn admits(in_flight: nat, max: nat) -> bool {
    in_flight < max
}

/// The calls in flight after one more has asked for admission.
pub open spec fn acquired(in_flight: nat, max: nat) -> nat {
    if admits(in_flight, max) {
        in_flight + 1
    } else {
        in_flight
    }
}

/// The calls in flight after `n` more have asked for admission and none has
/// resolved in between.
pub open spec fn acquired_times(in_flight: nat, max: nat, n: nat) -> nat
    decreases n,
{
    if n == 0 {
        in_flight
    } else {
        acquired_times(acquired(in_flight, max), max, (n - 1) as nat)
    }
}

/// The calls in flight after one has resolved.
pub open spec fn released(in_flight: nat) -> nat {
    if in_flight > 0 {
        (in_flight - 1) as nat
    } else {
        0
    }
}

/// Calls that ask for admission one after the other, none of them resolving,
/// fill the limiter up to its ceiling and no further.
pub proof fn fills_up_to_the_ceiling(in_flight: nat, max: nat, n: nat)
    requires
        in_flight <= max,
    ensures
        acquired_times(in_flight, max, n) == if in_flight + n <= max {
            in_flight + n
        } else {
            max
        },
    decreases n,
{
    if n > 0 {
        fills_up_to_the_ceiling(acquired(in_flight, max), max, (n - 1) as nat);
    }
}

/// Of the calls issued against an idle limiter, none of them resolving, the
/// first `max` are admitted and every one after them is turned away.
pub proof fn admits_exactly_the_ceiling(max: nat, n: nat)
    ensures
        admits(acquired_times(0, max, n), max) <==> n < max,
{
    fills_up_to_the_ceiling(0, max, n);
}

/// Wraps a service and limits the calls it has in flight.
pub struct InFlightLimit<S> {
    inner: S,
    max: usize,
    in_flight: usize,
}

impl<S> InFlightLimit<S> {
    /// The service inside.
    pub closed spec fn service(self) -> S {
        self.inner
    }

    pub closed spec fn spec_max(self) -> usize {
        self.max
    }

    pub closed spec fn spec_in_flight(self) -> usize {
        self.in_flight
    }

    /// A limiter with nothing in flight.
    pub fn new(inner: S, max: usize) -> (limit: Self)
        ensures
            limit.service() == inner,
            limit.spec_max() == max,
            limit.spec_in_flight() == 0,
    {
        InFlightLimit { inner, max, in_flight: 0 }
    }

    /// The ceiling.
    pub fn max(&self) -> (max: usize)
        ensures
            max == self.spec_max(),
    {
        self.max
    }

    /// The calls admitted that have not resolved yet.
    pub fn in_flight(&self) -> (n: usize)
        ensures
            n == self.spec_in_flight(),
    {
        self.in_flight
    }

    pub fn get_ref(&self) -> (service: &S)
        ensures
            *service == self.service(),
    {
        &self.inner
    }

    pub fn get_mut(&mut self) -> (service: &mut S)
        ensures
            *service == old(self).service(),
            final(self).service() == *final(service),
            final(self).spec_max() == old(self).spec_max(),
            final(self).spec_in_flight() == old(self).spec_in_flight(),
    {
        &mut self.inner
    }

    pub fn into_inner(self) -> (service: S)
        ensures
            service == self.service(),
    {
        self.inner
    }

    /// What the limiter answers when polled for readiness: what the stage
    /// below answered, a failure of it as an upstream failure.
    pub fn poll_ready(&self, inner: Poll<(), BufferError>) -> (ready: Poll<(), InFlightLimitError>)
        ensures
            match inner {
                Ok(state) => ready == Ok::<_, InFlightLimitError>(state),
                Err(e) => ready == Err::<crate::poll::Async<()>, _>(InFlightLimitError::Upstream(e)),
            },
    {
        match inner {
            Ok(state) => Ok(state),
            Err(e) => Err(InFlightLimitError::Upstream(e)),
        }
    }

    /// Asks for the admission of one call. Below the ceiling the call is
    /// admitted and counted; at the ceiling it is turned away at once, and
    /// nothing changes.
    pub fn try_acquire(&mut self) -> (admitted: Result<(), InFlightLimitError>)
        ensures
            final(self).service() == old(self).service(),
            final(self).spec_max() == old(self).spec_max(),
            final(self).spec_in_flight() == acquired(
                old(self).spec_in_flight() as nat,
                old(self).spec_max() as nat,
            ),
            admitted is Ok <==> admits(
                old(self).spec_in_flight() as nat,
                old(self).spec_max() as nat,
            ),
            admitted is Err ==> admitted == Err::<(), _>(InFlightLimitError::NoCapacity),
    {
        if self.in_flight < self.max {
            self.in_flight = self.in_flight + 1;
            Ok(())
        } else {
            Err(InFlightLimitError::NoCapacity)
        }
    }

    /// Takes note that an admitted call has resolved: with a response, with
    /// a failure, or because its caller gave it up.
    pub fn release(&mut self)
        ensures
            final(self).service() == old(self).service(),
            final(self).spec_max() == old(self).spec_max(),
            final(self).spec_in_flight() == released(old(self).spec_in_flight() as nat),
    {
        if self.in_flight > 0 {
            self.in_flight = self.in_flight - 1;
        }
    }
}

} // verus!
