//! Where the endpoints of a destination come from.
//!
//! A local service is watched in service discovery, and its endpoints come
//! and go. An address outside is its own single endpoint: it is reported
//! once and then nothing ever changes.

use vstd::prelude::*;
use crate::destination::{
    Destination, DestinationView, FullyQualifiedAuthority, Protocol, SocketAddr,
};
use crate::poll::{Async, Poll};

verus! {

/// One change in the set of endpoints: an endpoint at an address with the
/// service bound to it, or the address of one that is gone.
pub enum Change<S> {
    Insert(SocketAddr, S),
    Remove(SocketAddr),
}

/// The source of a destination's endpoints.
pub enum Discovery {
    /// The watch on service discovery for this authority, whose endpoints
    /// are bound for this protocol.
    LocalSvc(FullyQualifiedAuthority, Protocol),
    /// The one address, with the protocol to bind it for, until it has been
    /// handed out.
    External(Option<(SocketAddr, Protocol)>),
}

/// A source as contracts see it.
pub enum DiscoveryView {
    LocalSvc(Seq<char>, Protocol),
    External(Option<(SocketAddr, Protocol)>),
}

/// What whoever drives a source has to do for one poll of it.
#[derive(Clone, Copy, Debug, PartialEq, Eq)]
pub enum Step {
    /// Poll the watch, and report what it yields as it is.
    Watch,
    /// Bind this address for this protocol, and report the outcome through
    /// [`Discovery::bound`].
    Bind(SocketAddr, Protocol),
    /// Report that nothing has changed.
    NotReady,
}

impl View for Discovery {
    type V = DiscoveryView;

    open spec fn view(&self) -> DiscoveryView {
        match *self {
            Discovery::LocalSvc(authority, protocol) => DiscoveryView::LocalSvc(
                authority@,
                protocol,
            ),
            Discovery::External(pair) => DiscoveryView::External(pair),
        }
    }
}

impl DiscoveryView {
    /// The source for a destination and the protocol spoken to it.
    pub open spec fn of(dest: DestinationView, protocol: Protocol) -> DiscoveryView {
        match dest {
            DestinationView::LocalSvc(authority) => DiscoveryView::LocalSvc(authority, protocol),
            DestinationView::External(addr) => DiscoveryView::External(Some((addr, protocol))),
        }
    }

    /// The step that one poll asks for.
    pub open spec fn step(self) -> Step {
        match self {
            DiscoveryView::LocalSvc(_, _) => Step::Watch,
            DiscoveryView::External(Some((addr, protocol))) => Step::Bind(addr, protocol),
            DiscoveryView::External(None) => Step::NotReady,
        }
    }

    /// The source after one poll: a single address has been handed out.
    pub open spec fn polled(self) -> DiscoveryView {
        match self {
            DiscoveryView::LocalSvc(_, _) => self,
            DiscoveryView::External(_) => DiscoveryView::External(None),
        }
    }

    /// The source after `n` polls.
    pub open spec fn polled_times(self, n: nat) -> DiscoveryView
        decreases n,
    {
        if n == 0 {
            self
        } else {
            self.polled().polled_times((n - 1) as nat)
        }
    }
}

impl Discovery {
    /// The source for `dest`, to be spoken to over `protocol`.
    pub fn new(dest: &Destination, protocol: Protocol) -> (source: Discovery)
        ensures
            source@ == DiscoveryView::of(dest@, protocol),
    {
        match dest {
            Destination::LocalSvc(authority) => Discovery::LocalSvc(
                authority.duplicate(),
                protocol,
            ),
            Destination::External(addr) => Discovery::External(Some((*addr, protocol))),
        }
    }

    /// Polls the source for its next change. A single address is taken out
    /// here, before it is bound: if binding fails, it is not tried again.
    pub fn poll(&mut self) -> (step: Step)
        ensures
            step == old(self)@.step(),
            final(self)@ == old(self)@.polled(),
    {
        match self {
            Discovery::LocalSvc(_, _) => Step::Watch,
            Discovery::External(pair) => {
                match pair.take() {
                    Some((addr, protocol)) => Step::Bind(addr, protocol),
                    None => Step::NotReady,
                }
            },
        }
    }

    /// What a poll reports once the binder has answered for `addr`: the new
    /// endpoint, or the failure of discovery, which keeps no cause.
    pub fn bound<S, E>(addr: SocketAddr, outcome: Result<S, E>) -> (polled: Poll<Change<S>, ()>)
        ensures
            match outcome {
                Ok(service) => polled == Ok::<Async<Change<S>>, ()>(
                    Async::Ready(Change::Insert(addr, service)),
                ),
                Err(_) => polled is Err,
            },
    {
        match outcome {
            Ok(service) => Ok(Async::Ready(Change::Insert(addr, service))),
            Err(_) => Err(()),
        }
    }
}

/// The source of an address outside asks for one binding on its first poll.
/// However many polls follow, none of them asks for anything again, and the
/// source stays as it is.
pub proof fn single_address_is_reported_once(source: DiscoveryView, n: nat)
    requires
        source is External,
    ensures
        source.polled().polled_times(n) == DiscoveryView::External(None),
        source.polled().polled_times(n).step() == Step::NotReady,
    decreases n,
{
    if n > 0 {
        single_address_is_reported_once(source.polled(), (n - 1) as nat);
    }
}

} // verus!
