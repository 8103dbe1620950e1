//! The router: it recognizes where a request goes, and builds the pipeline
//! for a destination the first time one is asked for.

use vstd::prelude::*;
use crate::balance::{Balance, Endpoint};
use crate::buffer::Buffer;
use crate::destination::{Destination, Protocol, RoutingKey};
use crate::discovery::{Discovery, DiscoveryView};
use crate::duration::Duration;
use crate::limit::InFlightLimit;
use crate::log_errors::LogErrors;
use crate::recognize::{recognize, routing_key};
use crate::request::Request;
use crate::timeout::Timeout;

verus! {

/// The most calls that one pipeline has in flight at one time.
pub const MAX_IN_FLIGHT: usize = 10_000;

/// The pipeline of one destination, the outermost stage first: the wrapper
/// that reports failures, the timeout, the admission limiter, the buffer,
/// and the balancer with its source of endpoints. `S` is the service bound
/// to an endpoint, `T` a request waiting in the buffer.
pub type Pipeline<S, T> = LogErrors<Timeout<InFlightLimit<Buffer<Balance<S>, T>>>>;

/// The outbound router. It carries the binder `B` and the discovery client
/// `C` for whoever drives its pipelines, and decides with the rest.
pub struct Outbound<B, C> {
    bind: B,
    discovery: C,
    default_namespace: Option<String>,
    default_zone: Option<String>,
    timeout: Duration,
}

/// An optional text as contracts see it.
pub open spec fn text_of(text: Option<String>) -> Option<Seq<char>> {
    match text {
        Some(t) => Some(t@),
        None => None,
    }
}

impl<B, C> Outbound<B, C> {
    pub closed spec fn spec_bind(self) -> B {
        self.bind
    }

    pub closed spec fn spec_discovery(self) -> C {
        self.discovery
    }

    pub closed spec fn spec_default_namespace(self) -> Option<Seq<char>> {
        text_of(self.default_namespace)
    }

    pub closed spec fn spec_default_zone(self) -> Option<Seq<char>> {
        text_of(self.default_zone)
    }

    pub closed spec fn spec_timeout(self) -> Duration {
        self.timeout
    }

    pub fn new(
        bind: B,
        discovery: C,
        default_namespace: Option<String>,
        default_zone: Option<String>,
        timeout: Duration,
    ) -> (outbound: Outbound<B, C>)
        ensures
            outbound.spec_bind() == bind,
            outbound.spec_discovery() == discovery,
            outbound.spec_default_namespace() == text_of(default_namespace),
            outbound.spec_default_zone() == text_of(default_zone),
            outbound.spec_timeout() == timeout,
    {
        Outbound { bind, discovery, default_namespace, default_zone, timeout }
    }

    /// The binder that turns an address into a service.
    pub fn bind(&self) -> (bind: &B)
        ensures
            *bind == self.spec_bind(),
    {
        &self.bind
    }

    /// The client of service discovery.
    pub fn discovery(&self) -> (discovery: &C)
        ensures
            *discovery == self.spec_discovery(),
    {
        &self.discovery
    }

    /// The namespace that an authority without one is taken to be in.
    pub fn default_namespace(&self) -> (namespace: Option<&str>)
        ensures
            match namespace {
                Some(n) => self.spec_default_namespace() == Some(n@),
                None => self.spec_default_namespace() is None,
            },
    {
        match &self.default_namespace {
            Some(n) => Some(n.as_str()),
            None => None,
        }
    }

    /// The zone that an authority without one is taken to be in.
    pub fn default_zone(&self) -> (zone: Option<&str>)
        ensures
            match zone {
                Some(z) => self.spec_default_zone() == Some(z@),
                None => self.spec_default_zone() is None,
            },
    {
        match &self.default_zone {
            Some(z) => Some(z.as_str()),
            None => None,
        }
    }

    /// The time that each call through a pipeline is given.
    pub fn timeout(&self) -> (timeout: Duration)
        ensures
            timeout == self.spec_timeout(),
    {
        self.timeout
    }

    /// Recognizes the destination of `req`. `None` means the request cannot
    /// be routed, and the caller fails it.
    pub fn recognize(&self, req: &Request) -> (key: Option<RoutingKey>)
        ensures
            match key {
                Some(k) => routing_key(req@) == Some(k@),
                None => routing_key(req@) is None,
            },
    {
        recognize(req)
    }

    /// Builds the pipeline for `key`. Every pipeline is built, and built the
    /// same way: around a balancer that knows no endpoint yet, fed by the
    /// source for the key's destination and protocol, stand an open and
    /// empty buffer, a limiter with nothing in flight below its ceiling of
    /// [`MAX_IN_FLIGHT`], the timeout this router is configured with, and
    /// the wrapper that reports failures.
    pub fn bind_service<S, T>(&self, key: &RoutingKey) -> (built: Result<Pipeline<S, T>, ()>)
        ensures
            built matches Ok(pipeline) && {
                let timeout = pipeline.service();
                let limit = timeout.service();
                let buffer = limit.service();
                let balance = buffer.service();
                &&& timeout.spec_duration() == self.spec_timeout()
                &&& limit.spec_max() == MAX_IN_FLIGHT
                &&& limit.spec_in_flight() == 0
                &&& buffer@ == Seq::<T>::empty()
                &&& !buffer.spec_is_closed()
                &&& balance@ == Seq::<Endpoint<S>>::empty()
                &&& balance.issued() == 0
                &&& balance.wf()
                &&& balance.spec_source()@ == DiscoveryView::of(key.0@, key.1)
            },
    {
        let resolve = Discovery::new(&key.0, key.1);
        let balance = Balance::new(resolve);
        let buffer = Buffer::new(balance);
        let inflight = InFlightLimit::new(buffer, MAX_IN_FLIGHT);
        let timeout = Timeout::new(inflight, self.timeout);
        Ok(LogErrors::new(timeout))
    }
}

} // verus!
