use outbound::destination::{Destination, FullyQualifiedAuthority, Protocol, SocketAddr, Version};
use outbound::duration::Duration;
use outbound::recognize::recognize;
use outbound::request::{Request, ServerCtx};
use outbound::router::Outbound;

fn authority(name: &str) -> FullyQualifiedAuthority {
    FullyQualifiedAuthority::new(name.to_string())
}

fn v4(a: u8, b: u8, c: u8, d: u8, port: u16) -> SocketAddr {
    SocketAddr::V4 { ip: u32::from_be_bytes([a, b, c, d]), port }
}

fn captured(addr: SocketAddr) -> Option<ServerCtx> {
    Some(ServerCtx { orig_dst: Some(addr), orig_dst_is_local: false })
}

#[test]
fn local_authority_gives_a_local_service() {
    let req = Request {
        local: Some(authority("web.default.svc.cluster.local:8080")),
        version: Version::Http11,
        server: None,
    };
    assert_eq!(
        recognize(&req),
        Some((Destination::LocalSvc(authority("web.default.svc.cluster.local:8080")), Protocol::Http1))
    );
}

#[test]
fn local_authority_wins_over_an_original_destination() {
    let req = Request {
        local: Some(authority("web.default.svc.cluster.local")),
        version: Version::Http2,
        server: captured(v4(10, 1, 2, 3, 443)),
    };
    assert_eq!(
        recognize(&req),
        Some((Destination::LocalSvc(authority("web.default.svc.cluster.local")), Protocol::Http2))
    );
}

#[test]
fn original_destination_gives_an_external_address() {
    let addr = v4(93, 184, 216, 34, 80);
    let req = Request { local: None, version: Version::Http11, server: captured(addr) };
    assert_eq!(recognize(&req), Some((Destination::External(addr), Protocol::Http1)));
}

#[test]
fn ipv6_original_destination_is_kept_whole() {
    let addr = SocketAddr::V6 { ip: 1, port: 8443, flowinfo: 7, scope_id: 2 };
    let req = Request { local: None, version: Version::Http2, server: captured(addr) };
    assert_eq!(recognize(&req), Some((Destination::External(addr), Protocol::Http2)));
    assert_eq!(addr.port(), 8443);
}

#[test]
fn local_original_destination_is_not_used() {
    let req = Request {
        local: None,
        version: Version::Http11,
        server: Some(ServerCtx { orig_dst: Some(v4(127, 0, 0, 1, 4140)), orig_dst_is_local: true }),
    };
    assert_eq!(recognize(&req), None);
}

#[test]
fn request_without_authority_or_context_has_no_key() {
    let req = Request { local: None, version: Version::Http11, server: None };
    assert_eq!(recognize(&req), None);
}

#[test]
fn context_without_original_destination_has_no_key() {
    let req = Request {
        local: None,
        version: Version::Http2,
        server: Some(ServerCtx { orig_dst: None, orig_dst_is_local: false }),
    };
    assert_eq!(recognize(&req), None);
}

#[test]
fn only_http2_is_spoken_as_http2() {
    assert_eq!(Protocol::of(Version::Http09), Protocol::Http1);
    assert_eq!(Protocol::of(Version::Http10), Protocol::Http1);
    assert_eq!(Protocol::of(Version::Http11), Protocol::Http1);
    assert_eq!(Protocol::of(Version::Http2), Protocol::Http2);
}

#[test]
fn same_authority_and_protocol_give_equal_keys() {
    let a = Request {
        local: Some(authority("web.default.svc.cluster.local")),
        version: Version::Http10,
        server: None,
    };
    let b = Request {
        local: Some(authority("web.default.svc.cluster.local")),
        version: Version::Http11,
        server: captured(v4(10, 0, 0, 9, 80)),
    };
    let ka = recognize(&a);
    let kb = recognize(&b);
    assert!(ka.is_some());
    assert_eq!(ka, kb);
}

#[test]
fn different_protocols_give_different_keys() {
    let a = Request { local: Some(authority("web.ns.svc.zone")), version: Version::Http11, server: None };
    let b = Request { local: Some(authority("web.ns.svc.zone")), version: Version::Http2, server: None };
    assert_ne!(recognize(&a), recognize(&b));
}

#[test]
fn same_original_destination_gives_equal_keys() {
    let addr = v4(8, 8, 8, 8, 53);
    let a = Request { local: None, version: Version::Http11, server: captured(addr) };
    let b = Request { local: None, version: Version::Http09, server: captured(addr) };
    assert_eq!(recognize(&a), recognize(&b));
}

#[test]
fn orig_dst_if_not_local_follows_the_flag() {
    let addr = v4(10, 0, 0, 1, 80);
    assert_eq!(ServerCtx { orig_dst: Some(addr), orig_dst_is_local: false }.orig_dst_if_not_local(), Some(addr));
    assert_eq!(ServerCtx { orig_dst: Some(addr), orig_dst_is_local: true }.orig_dst_if_not_local(), None);
    assert_eq!(ServerCtx { orig_dst: None, orig_dst_is_local: false }.orig_dst_if_not_local(), None);
}

#[test]
fn authority_keeps_its_text() {
    let a = authority("db.prod.svc.cluster.local:5432");
    assert_eq!(a.as_str(), "db.prod.svc.cluster.local:5432");
    assert!(a.same(&a.duplicate()));
    assert!(!a.same(&authority("db.prod.svc.cluster.local")));
    let d = Destination::LocalSvc(a);
    assert_eq!(d.duplicate(), d);
}

#[test]
fn router_recognizes_as_the_free_function_does() {
    let router = Outbound::new((), (), Some("default".to_string()), None, Duration::from_secs(10));
    let addr = v4(1, 2, 3, 4, 5);
    let reqs = vec![
        Request { local: Some(authority("a.b.svc.c")), version: Version::Http2, server: None },
        Request { local: None, version: Version::Http11, server: captured(addr) },
        Request { local: None, version: Version::Http11, server: None },
    ];
    for req in &reqs {
        assert_eq!(router.recognize(req), recognize(req));
    }
}
