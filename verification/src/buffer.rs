//! The buffer: callers queue their requests here, and one worker hands them
//! to the balancer in the order they came. The queue has no bound.

use std::collections::VecDeque;
use vstd::prelude::*;
use crate::failure::{BalanceError, BufferError};
use crate::poll::Poll;

verus! {

/// Wraps a service and queues the requests for it.
pub struct Buffer<S, T> {
    inner: S,
    queue: VecDeque<T>,
    closed: bool,
}

impl<S, T> View for Buffer<S, T> {
    type V = Seq<T>;

    /// The requests queued, the oldest first.
    closed spec fn view(&self) -> Seq<T> {
        self.queue@
    }
}

impl<S, T> Buffer<S, T> {
    /// The service inside.
    pub closed spec fn service(self) -> S {
        self.inner
    }

    /// Whether the worker that serves the queue is gone.
    pub closed spec fn spec_is_closed(self) -> bool {
        self.closed
    }

    /// An open buffer with nothing queued.
    pub fn new(inner: S) -> (buffer: Self)
        ensures
            buffer.service() == inner,
            buffer@ == Seq::<T>::empty(),
            !buffer.spec_is_closed(),
    {
        Buffer { inner, queue: VecDeque::new(), closed: false }
    }

    pub fn len(&self) -> (n: usize)
        ensures
            n == self@.len(),
    {
        self.queue.len()
    }

    pub fn is_closed(&self) -> (closed: bool)
        ensures
            closed == self.spec_is_closed(),
    {
        self.closed
    }

    pub fn get_ref(&self) -> (service: &S)
        ensures
            *service == self.service(),
    {
        &self.inner
    }

    pub fn get_mut(&mut self) -> (service: &mut S)
        ensures
            *service == old(self).service(),
            final(self).service() == *final(service),
            final(self)@ == old(self)@,
            final(self).spec_is_closed() == old(self).spec_is_closed(),
    {
        &mut self.inner
    }

    pub fn into_inner(self) -> (service: S)
        ensures
            service == self.service(),
    {
        self.inner
    }

    /// What the buffer answers when polled for readiness: what the balancer
    /// answered, as long as the worker is there.
    pub fn poll_ready(&self, inner: Poll<(), BalanceError>) -> (ready: Poll<(), BufferError>)
        ensures
            ready == (if self.spec_is_closed() {
                Err::<crate::poll::Async<()>, _>(BufferError::Closed)
            } else {
                match inner {
                    Ok(state) => Ok::<_, BufferError>(state),
                    Err(e) => Err::<crate::poll::Async<()>, _>(BufferError::Inner(e)),
                }
            }),
    {
        if self.closed {
            Err(BufferError::Closed)
        } else {
            match inner {
                Ok(state) => Ok(state),
                Err(e) => Err(BufferError::Inner(e)),
            }
        }
    }

    /// Queues a request behind all those queued before it. An open buffer
    /// takes every request, however many it holds.
    pub fn push(&mut self, request: T) -> (queued: Result<(), BufferError>)
        ensures
            final(self).service() == old(self).service(),
            final(self).spec_is_closed() == old(self).spec_is_closed(),
            old(self).spec_is_closed() ==> {
                &&& queued == Err::<(), _>(BufferError::Closed)
                &&& final(self)@ == old(self)@
            },
            !old(self).spec_is_closed() ==> {
                &&& queued is Ok
                &&& final(self)@ == old(self)@.push(request)
            },
    {
        if self.closed {
            Err(BufferError::Closed)
        } else {
            self.queue.push_back(request);
            Ok(())
        }
    }

    /// Takes out the request that has waited longest.
    pub fn pop(&mut self) -> (next: Option<T>)
        ensures
            final(self).service() == old(self).service(),
            final(self).spec_is_closed() == old(self).spec_is_closed(),
            match next {
                Some(request) => {
                    &&& old(self)@.len() > 0
                    &&& request == old(self)@[0]
                    &&& final(self)@ == old(self)@.skip(1)
                },
                None => old(self)@.len() == 0 && final(self)@ == old(self)@,
            },
    {
        let next = self.queue.pop_front();
        proof {
            if next is Some {
                assert(old(self)@.subrange(1, old(self)@.len() as int) =~= old(self)@.skip(1));
            }
        }
        next
    }

    /// Takes note that the worker is gone. What is still queued stays for
    /// whoever drains it.
    pub fn close(&mut self)
        ensures
            final(self).service() == old(self).service(),
            final(self)@ == old(self)@,
            final(self).spec_is_closed(),
    {
        self.closed = true;
    }
}

/// Requests leave the queue in the order they came: what was queued first
/// is still ahead after any number of later requests.
pub proof fn first_in_first_out<T>(queue: Seq<T>, later: T)
    requires
        queue.len() > 0,
    ensures
        queue.push(later)[0] == queue[0],
        queue.push(later).skip(1) == queue.skip(1).push(later),
{
    assert(queue.push(later).skip(1) =~= queue.skip(1).push(later));
}

} // verus!
