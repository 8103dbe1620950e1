//! A request as recognition sees it.

use vstd::prelude::*;
use crate::destination::{FullyQualifiedAuthority, SocketAddr, Version};

verus! {

/// What the transport layer attached to a request when it accepted the
/// connection the request came in on.
#[derive(Clone, Copy, Debug, PartialEq, Eq)]
pub struct ServerCtx {
    /// The address the client dialed before the connection was intercepted.
    pub orig_dst: Option<SocketAddr>,
    /// Whether that address resolves to a local identity, so that a request
    /// sent there would come back to this proxy.
    pub orig_dst_is_local: bool,
}

impl ServerCtx {
    /// The captured address, unless it is a local one.
    pub open spec fn spec_orig_dst_if_not_local(self) -> Option<SocketAddr> {
        if self.orig_dst_is_local {
            None
        } else {
            self.orig_dst
        }
    }

    #[verifier::when_used_as_spec(spec_orig_dst_if_not_local)]
    pub fn orig_dst_if_not_local(self) -> (addr: Option<SocketAddr>)
        ensures
            addr == self.spec_orig_dst_if_not_local(),
    {
        if self.orig_dst_is_local {
            None
        } else {
            self.orig_dst
        }
    }
}

/// An inbound request, reduced to what decides its route.
#[derive(Clone, Debug, PartialEq, Eq)]
pub struct Request {
    /// The request's authority as a local service, qualified with the
    /// configured default namespace and zone; `None` where the request has
    /// no authority, or has one that names no local service.
    pub local: Option<FullyQualifiedAuthority>,
    /// The HTTP version the request declares.
    pub version: Version,
    /// The connection context, where the transport layer attached one.
    pub server: Option<ServerCtx>,
}

/// A request as contracts see it: the authority by its text.
pub struct RequestView {
    pub local: Option<Seq<char>>,
    pub version: Version,
    pub server: Option<ServerCtx>,
}

impl View for Request {
    type V = RequestView;

    open spec fn view(&self) -> RequestView {
        RequestView {
            local: match self.local {
                Some(a) => Some(a@),
                None => None,
            },
            version: self.version,
            server: self.server,
        }
    }
}

impl RequestView {
    /// The original destination this request can be sent on to: the one its
    /// context captured, unless the context is missing or the address is
    /// local.
    pub open spec fn orig_dst(self) -> Option<SocketAddr> {
        match self.server {
            Some(ctx) => ctx.spec_orig_dst_if_not_local(),
            None => None,
        }
    }
}

} // verus!
