//! What the stages of a pipeline do together: a failure of readiness makes
//! its way out through every stage, a call is admitted and queued in one
//! step, and a call that resolves gives back what it took at each stage.

use vstd::prelude::*;
use crate::balance::{completed, well_formed, Balance, Endpoint, Ticket};
use crate::buffer::Buffer;
use crate::discovery::Discovery;
use crate::duration::Duration;
use crate::failure::{BalanceError, BufferError, InFlightLimitError, LogError, TimeoutError};
use crate::limit::{admits, released, InFlightLimit};
use crate::log_errors::{human_text, log_line, LogErrors};
use crate::poll::Poll;
use crate::timeout::Timeout;

verus! {

/// A pipeline as contracts see it, stage by stage.
pub struct PipelineView<S, T> {
    /// The time that each call is given.
    pub timeout: Duration,
    /// The ceiling of the admission limiter.
    pub max: usize,
    /// The calls admitted that have not resolved yet.
    pub in_flight: usize,
    /// The requests that wait in the buffer, the oldest first.
    pub queue: Seq<T>,
    /// Whether the worker that serves the buffer is gone.
    pub closed: bool,
    /// The endpoints that the balancer knows.
    pub members: Seq<Endpoint<S>>,
    /// The insertions that the balancer has made.
    pub issued: u64,
    /// The source of the balancer's endpoints.
    pub source: Discovery,
}

/// What a pipeline answers when polled for readiness, given what its
/// balancer answered. A buffer without its worker fails whatever the
/// balancer says; a failure of the balancer comes out as it is, inside the
/// failure of each stage around it; any other answer comes out unchanged.
pub open spec fn surfaced(closed: bool, balance: Poll<(), BalanceError>) -> Poll<(), LogError> {
    if closed {
        Err(TimeoutError::Error(InFlightLimitError::Upstream(BufferError::Closed)))
    } else {
        match balance {
            Ok(state) => Ok(state),
            Err(e) => Err(TimeoutError::Error(InFlightLimitError::Upstream(BufferError::Inner(e)))),
        }
    }
}

/// What a call is answered with when it asks to be let in.
pub open spec fn let_in(in_flight: usize, max: usize, closed: bool) -> Result<(), LogError> {
    if !admits(in_flight as nat, max as nat) {
        Err(TimeoutError::Error(InFlightLimitError::NoCapacity))
    } else if closed {
        Err(TimeoutError::Error(InFlightLimitError::Upstream(BufferError::Closed)))
    } else {
        Ok(())
    }
}

impl<S, T> LogErrors<Timeout<InFlightLimit<Buffer<Balance<S>, T>>>> {
    /// The stages of this pipeline.
    pub open spec fn state(self) -> PipelineView<S, T> {
        let timeout = self.service();
        let limit = timeout.service();
        let buffer = limit.service();
        let balance = buffer.service();
        PipelineView {
            timeout: timeout.spec_duration(),
            max: limit.spec_max(),
            in_flight: limit.spec_in_flight(),
            queue: buffer@,
            closed: buffer.spec_is_closed(),
            members: balance@,
            issued: balance.issued(),
            source: balance.spec_source(),
        }
    }

    /// What holds of the balancer of every pipeline.
    pub open spec fn wf(self) -> bool {
        well_formed(self.state().members, self.state().issued)
    }

    /// What the pipeline answers when polled for readiness, given what its
    /// balancer answered, and with a failure the line to log for it.
    pub fn ready(&self, balance: Poll<(), BalanceError>) -> (out: (Poll<(), LogError>, Option<String>))
        ensures
            out.0 == surfaced(self.state().closed, balance),
            match out.0 {
                Ok(_) => out.1 is None,
                Err(e) => out.1 matches Some(line) && line@ == log_line(human_text(e)),
            },
    {
        let timeout = self.get_ref();
        let limit = timeout.get_ref();
        let buffer = limit.get_ref();
        let ready = buffer.poll_ready(balance);
        let ready = limit.poll_ready(ready);
        let ready = timeout.poll_ready(ready);
        self.poll_ready(ready)
    }

    /// Lets one call in: past the admission limiter, which counts it, and
    /// into the buffer, behind the requests already there. A call that is
    /// turned away at either stage leaves the pipeline as it was.
    pub fn enqueue(&mut self, request: T) -> (queued: Result<(), LogError>)
        ensures
            queued == let_in(
                old(self).state().in_flight,
                old(self).state().max,
                old(self).state().closed,
            ),
            queued is Ok ==> final(self).state() == (PipelineView {
                in_flight: (old(self).state().in_flight + 1) as usize,
                queue: old(self).state().queue.push(request),
                ..old(self).state()
            }),
            queued is Err ==> final(self).state() == old(self).state(),
    {
        let limit = self.get_mut().get_mut();
        match limit.try_acquire() {
            Err(e) => Err(TimeoutError::Error(e)),
            Ok(()) => {
                match limit.get_mut().push(request) {
                    Ok(()) => Ok(()),
                    Err(e) => {
                        limit.release();
                        Err(TimeoutError::Error(InFlightLimitError::Upstream(e)))
                    },
                }
            },
        }
    }

    /// Takes note that a call that was let in has resolved: with a
    /// response, with a failure, or because its caller gave it up. The
    /// limiter has one call less in flight, and so has the endpoint that
    /// the call was dispatched to, if it had been dispatched.
    pub fn resolved(&mut self, ticket: Option<Ticket>)
        requires
            old(self).wf(),
        ensures
            final(self).wf(),
            final(self).state() == (PipelineView {
                in_flight: released(old(self).state().in_flight as nat) as usize,
                members: match ticket {
                    Some(t) => completed(old(self).state().members, t),
                    None => old(self).state().members,
                },
                ..old(self).state()
            }),
    {
        let limit = self.get_mut().get_mut();
        limit.release();
        match ticket {
            Some(t) => {
                limit.get_mut().get_mut().complete(t);
            },
            None => {},
        }
    }
}

} // verus!
