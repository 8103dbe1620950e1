//! Destination recognition: from a request to the key of its pipeline.

use vstd::prelude::*;
use crate::destination::{Destination, DestinationView, Protocol, RoutingKey};
use crate::request::{Request, RequestView};

verus! {

/// The key of a request. A local authority decides first; without one the
/// usable original destination does; without either there is no key.
pub open spec fn routing_key(req: RequestView) -> Option<(DestinationView, Protocol)> {
    match req.local {
        Some(authority) => Some(
            (DestinationView::LocalSvc(authority), Protocol::spec_of(req.version)),
        ),
        None => match req.orig_dst() {
            Some(addr) => Some((DestinationView::External(addr), Protocol::spec_of(req.version))),
            None => None,
        },
    }
}

/// Recognizes the destination of `req`. `None` means the request cannot be
/// routed, and the caller fails it.
pub fn recognize(req: &Request) -> (key: Option<RoutingKey>)
    ensures
        match key {
            Some(k) => routing_key(req@) == Some(k@),
            None => routing_key(req@) is None,
        },
{
    let protocol = Protocol::of(req.version);
    match &req.local {
        Some(authority) => Some((Destination::LocalSvc(authority.duplicate()), protocol)),
        None => {
            let orig_dst = match req.server {
                Some(ctx) => ctx.orig_dst_if_not_local(),
                None => None,
            };
            match orig_dst {
                Some(addr) => Some((Destination::External(addr), protocol)),
                None => None,
            }
        },
    }
}

/// A request with a local authority goes to that local service, whatever its
/// connection context holds.
pub proof fn local_authority_decides(req: RequestView, authority: Seq<char>)
    requires
        req.local == Some(authority),
    ensures
        routing_key(req) == Some(
            (DestinationView::LocalSvc(authority), Protocol::spec_of(req.version)),
        ),
        forall|other: RequestView|
            other.local == req.local && other.version == req.version ==> #[trigger] routing_key(
                other,
            ) == routing_key(req),
{
}

/// A request without a local authority, whose context captured an address
/// that is not local, goes to that address.
pub proof fn original_destination_decides(req: RequestView, addr: crate::destination::SocketAddr)
    requires
        req.local is None,
        req.server matches Some(ctx) && ctx.orig_dst == Some(addr) && !ctx.orig_dst_is_local,
    ensures
        routing_key(req) == Some((DestinationView::External(addr), Protocol::spec_of(req.version))),
{
}

/// A request with neither a local authority nor a usable original
/// destination has no key.
pub proof fn nothing_to_route_by(req: RequestView)
    requires
        req.local is None,
        req.orig_dst() is None,
    ensures
        routing_key(req) is None,
{
}

/// Two requests that resolve to the same authority and speak the same
/// protocol have the same key, whatever else tells them apart.
pub proof fn same_authority_same_key(a: RequestView, b: RequestView)
    requires
        a.local is Some,
        a.local == b.local,
        Protocol::spec_of(a.version) == Protocol::spec_of(b.version),
    ensures
        routing_key(a) is Some,
        routing_key(a) == routing_key(b),
{
}

/// Two requests without a local authority that were bound for the same
/// address outside, and speak the same protocol, have the same key.
pub proof fn same_original_destination_same_key(a: RequestView, b: RequestView)
    requires
        a.local is None,
        b.local is None,
        a.orig_dst() is Some,
        a.orig_dst() == b.orig_dst(),
        Protocol::spec_of(a.version) == Protocol::spec_of(b.version),
    ensures
        routing_key(a) is Some,
        routing_key(a) == routing_key(b),
{
}

} // verus!
