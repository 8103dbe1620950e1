use outbound::destination::{Destination, FullyQualifiedAuthority, Protocol, SocketAddr};
use outbound::discovery::{Change, Discovery, Step};
use outbound::duration::Duration;
use outbound::failure::{BalanceError, BufferError, InFlightLimitError, TimeoutError};
use outbound::poll::Async;
use outbound::router::{Outbound, Pipeline, MAX_IN_FLIGHT};

fn router() -> Outbound<&'static str, u8> {
    Outbound::new(
        "binder",
        7,
        Some("default".to_string()),
        Some("cluster.local".to_string()),
        Duration::from_secs(10),
    )
}

#[test]
fn router_keeps_what_it_was_made_with() {
    let router = router();
    assert_eq!(*router.bind(), "binder");
    assert_eq!(*router.discovery(), 7);
    assert_eq!(router.default_namespace(), Some("default"));
    assert_eq!(router.default_zone(), Some("cluster.local"));
    assert_eq!(router.timeout(), Duration::from_secs(10));
    let bare = Outbound::new((), (), None, None, Duration::from_millis(5));
    assert_eq!(bare.default_namespace(), None);
    assert_eq!(bare.default_zone(), None);
}

#[test]
fn pipeline_for_an_external_address() {
    let addr = SocketAddr::V4 { ip: 0x5db8_d822, port: 443 };
    let key = (Destination::External(addr), Protocol::Http2);
    let built: Result<Pipeline<&'static str, u32>, ()> = router().bind_service(&key);
    let mut pipeline = match built {
        Ok(p) => p,
        Err(()) => panic!("every pipeline is built"),
    };
    let timeout = pipeline.get_mut();
    assert_eq!(timeout.duration(), Duration::from_secs(10));
    let limit = timeout.get_mut();
    assert_eq!(limit.max(), MAX_IN_FLIGHT);
    assert_eq!(limit.in_flight(), 0);
    let buffer = limit.get_mut();
    assert_eq!(buffer.len(), 0);
    assert!(!buffer.is_closed());
    let balance = buffer.get_mut();
    assert_eq!(balance.len(), 0);
    assert_eq!(balance.poll_ready(), Async::NotReady);
    assert_eq!(balance.poll_discover(), Step::Bind(addr, Protocol::Http2));
    assert_eq!(balance.poll_discover(), Step::NotReady);
}

#[test]
fn pipeline_for_a_local_service() {
    let authority = FullyQualifiedAuthority::new("web.default.svc.cluster.local".to_string());
    let key = (Destination::LocalSvc(authority), Protocol::Http1);
    let built: Result<Pipeline<(), ()>, ()> = router().bind_service(&key);
    let pipeline = match built {
        Ok(p) => p,
        Err(()) => panic!("every pipeline is built"),
    };
    let mut balance = pipeline.into_inner().into_inner().into_inner().into_inner();
    assert_eq!(balance.poll_discover(), Step::Watch);
    assert_eq!(balance.poll_discover(), Step::Watch);
    let source = Discovery::new(&key.0, key.1);
    match source {
        Discovery::LocalSvc(a, p) => {
            assert_eq!(a.as_str(), "web.default.svc.cluster.local");
            assert_eq!(p, Protocol::Http1);
        },
        Discovery::External(_) => panic!("a local service is watched"),
    }
}

#[test]
fn each_key_gets_a_pipeline_of_its_own() {
    let router = router();
    let key = (Destination::External(SocketAddr::V4 { ip: 1, port: 1 }), Protocol::Http1);
    let first: Result<Pipeline<(), ()>, ()> = router.bind_service(&key);
    let second: Result<Pipeline<(), ()>, ()> = router.bind_service(&key);
    let mut first = match first {
        Ok(p) => p,
        Err(()) => panic!("every pipeline is built"),
    };
    let mut second = match second {
        Ok(p) => p,
        Err(()) => panic!("every pipeline is built"),
    };
    assert!(first.get_mut().get_mut().try_acquire().is_ok());
    assert_eq!(first.get_ref().get_ref().in_flight(), 1);
    assert_eq!(second.get_mut().get_mut().in_flight(), 0);
}

fn built(max_calls: usize) -> Pipeline<&'static str, u32> {
    let key = (Destination::External(SocketAddr::V4 { ip: 9, port: 9 }), Protocol::Http1);
    let built: Result<Pipeline<&'static str, u32>, ()> = router().bind_service(&key);
    let mut pipeline = match built {
        Ok(p) => p,
        Err(()) => panic!("every pipeline is built"),
    };
    for n in 0..max_calls {
        assert!(pipeline.enqueue(n as u32) == Ok(()));
    }
    pipeline
}

#[test]
fn the_ten_thousand_and_first_call_is_turned_away() {
    let mut pipeline = built(10_000);
    assert!(
        pipeline.enqueue(10_000)
            == Err(TimeoutError::Error(InFlightLimitError::NoCapacity))
    );
    assert_eq!(pipeline.get_ref().get_ref().in_flight(), 10_000);
    assert_eq!(pipeline.get_ref().get_ref().get_ref().len(), 10_000);
    pipeline.resolved(None);
    assert!(pipeline.enqueue(10_001) == Ok(()));
}

#[test]
fn a_call_turned_away_by_a_closed_buffer_is_not_counted() {
    let mut pipeline = built(2);
    pipeline.get_mut().get_mut().get_mut().close();
    assert!(
        pipeline.enqueue(7)
            == Err(TimeoutError::Error(InFlightLimitError::Upstream(BufferError::Closed)))
    );
    assert_eq!(pipeline.get_ref().get_ref().in_flight(), 2);
    assert_eq!(pipeline.get_ref().get_ref().get_ref().len(), 2);
}

#[test]
fn readiness_comes_out_through_every_stage() {
    let mut pipeline = built(0);
    let (ready, line) = pipeline.ready(Ok(Async::Ready(())));
    assert!(ready == Ok(Async::Ready(())));
    assert_eq!(line, None);
    let (ready, line) = pipeline.ready(Ok(Async::NotReady));
    assert!(ready == Ok(Async::NotReady));
    assert_eq!(line, None);
    let (ready, line) = pipeline.ready(Err(BalanceError::Balance));
    assert!(
        ready
            == Err(TimeoutError::Error(InFlightLimitError::Upstream(BufferError::Inner(
                BalanceError::Balance
            ))))
    );
    assert_eq!(line, Some("bind service error: Upstream(Inner(Balance(())))".to_string()));
    pipeline.get_mut().get_mut().get_mut().close();
    let (ready, line) = pipeline.ready(Ok(Async::Ready(())));
    assert!(ready == Err(TimeoutError::Error(InFlightLimitError::Upstream(BufferError::Closed))));
    assert_eq!(line, Some("bind service error: Upstream(Closed)".to_string()));
}

#[test]
fn a_resolved_call_gives_back_at_every_stage() {
    let mut pipeline = built(3);
    let balance = pipeline.get_mut().get_mut().get_mut().get_mut();
    balance.update(Change::Insert(SocketAddr::V4 { ip: 1, port: 80 }, "a"));
    let ticket = balance.dispatch(0);
    assert_eq!(balance.pending(0), 1);
    pipeline.resolved(Some(ticket));
    assert_eq!(pipeline.get_ref().get_ref().in_flight(), 2);
    assert_eq!(pipeline.get_ref().get_ref().get_ref().get_ref().pending(0), 0);
    pipeline.resolved(None);
    pipeline.resolved(None);
    pipeline.resolved(None);
    assert_eq!(pipeline.get_ref().get_ref().in_flight(), 0);
}
