//! What a request is bound for, and over which wire protocol.

use vstd::prelude::*;

verus! {

/// A socket address: what the transport layer captured before interception.
///
/// Two addresses are equal when every part is equal, the flow information and
/// the scope of an IPv6 address included.
#[derive(Clone, Copy, Debug, PartialEq, Eq, Hash, Structural)]
#[allow(inconsistent_fields)]
pub enum SocketAddr {
    V4 { ip: u32, port: u16 },
    V6 { ip: u128, port: u16, flowinfo: u32, scope_id: u32 },
}

impl SocketAddr {
    /// The port, whichever family the address belongs to.
    pub open spec fn spec_port(self) -> u16 {
        match self {
            SocketAddr::V4 { port, .. } => port,
            SocketAddr::V6 { port, .. } => port,
        }
    }

    #[verifier::when_used_as_spec(spec_port)]
    pub fn port(self) -> (p: u16)
        ensures
            p == self.spec_port(),
    {
        match self {
            SocketAddr::V4 { port, .. } => port,
            SocketAddr::V6 { port, .. } => port,
        }
    }
}

/// The authority of a local service: a host with an optional port, already
/// qualified with the namespace and zone it lives in.
///
/// Its view is the text; two authorities are the same service exactly when
/// their views are equal.
#[derive(Clone, Debug, PartialEq, Eq, Hash)]
pub struct FullyQualifiedAuthority {
    name: String,
}

impl View for FullyQualifiedAuthority {
    type V = Seq<char>;

    closed spec fn view(&self) -> Seq<char> {
        self.name@
    }
}

impl FullyQualifiedAuthority {
    pub fn new(name: String) -> (a: Self)
        ensures
            a@ == name@,
    {
        FullyQualifiedAuthority { name }
    }

    pub fn as_str(&self) -> (s: &str)
        ensures
            s@ == self@,
    {
        self.name.as_str()
    }

    /// A second authority with the same text.
    pub fn duplicate(&self) -> (a: Self)
        ensures
            a@ == self@,
    {
        FullyQualifiedAuthority { name: self.name.clone() }
    }

    pub fn same(&self, other: &Self) -> (b: bool)
        ensures
            b == (self@ == other@),
    {
        self.name == other.name
    }
}

/// The HTTP version that a request declares.
#[derive(Clone, Copy, Debug, PartialEq, Eq, Hash, Structural)]
pub enum Version {
    Http09,
    Http10,
    Http11,
    Http2,
}

/// The wire protocol spoken to a destination.
#[derive(Clone, Copy, Debug, PartialEq, Eq, Hash, Structural)]
pub enum Protocol {
    Http1,
    Http2,
}

impl View for Protocol {
    type V = Protocol;

    open spec fn view(&self) -> Protocol {
        *self
    }
}

impl Protocol {
    /// HTTP/2 is spoken as HTTP/2; every other version as HTTP/1.
    pub open spec fn spec_of(version: Version) -> Protocol {
        if version == Version::Http2 {
            Protocol::Http2
        } else {
            Protocol::Http1
        }
    }

    #[verifier::when_used_as_spec(spec_of)]
    pub fn of(version: Version) -> (p: Protocol)
        ensures
            p == Protocol::spec_of(version),
    {
        match version {
            Version::Http2 => Protocol::Http2,
            _ => Protocol::Http1,
        }
    }
}

/// Where a request goes: a local service by name, or an address outside.
#[derive(Clone, Debug, PartialEq, Eq, Hash)]
pub enum Destination {
    LocalSvc(FullyQualifiedAuthority),
    External(SocketAddr),
}

/// A destination as contracts see it: the authority by its text.
pub enum DestinationView {
    LocalSvc(Seq<char>),
    External(SocketAddr),
}

impl View for Destination {
    type V = DestinationView;

    open spec fn view(&self) -> DestinationView {
        match *self {
            Destination::LocalSvc(a) => DestinationView::LocalSvc(a@),
            Destination::External(addr) => DestinationView::External(addr),
        }
    }
}

impl Destination {
    /// A second destination with the same view.
    pub fn duplicate(&self) -> (d: Self)
        ensures
            d@ == self@,
    {
        match self {
            Destination::LocalSvc(a) => Destination::LocalSvc(a.duplicate()),
            Destination::External(addr) => Destination::External(*addr),
        }
    }
}

/// The key under which a pipeline is kept: requests with equal keys share one.
pub type RoutingKey = (Destination, Protocol);

} // verus!
