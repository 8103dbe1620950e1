use outbound::balance::{distinct_pair, Balance, Ticket};
use outbound::destination::{Protocol, SocketAddr};
use outbound::discovery::{Change, Discovery, Step};
use outbound::failure::BalanceError;
use outbound::poll::Async;

fn addr(port: u16) -> SocketAddr {
    SocketAddr::V4 { ip: 0x0a00_0001, port }
}

fn empty() -> Balance<&'static str> {
    Balance::new(Discovery::External(None))
}

fn load(balance: &mut Balance<&'static str>, i: usize, calls: usize) {
    for _ in 0..calls {
        balance.dispatch(i);
    }
}

#[test]
fn new_balancer_knows_no_endpoint() {
    let balance = empty();
    assert_eq!(balance.len(), 0);
    assert_eq!(balance.poll_ready(), Async::NotReady);
    assert!(balance.select() == Err(BalanceError::NotReady));
    assert!(balance.can_insert());
}

#[test]
fn after_insert_insert_remove_only_the_second_is_selected() {
    let a = addr(1);
    let b = addr(2);
    let mut balance = empty();
    balance.update(Change::Insert(a, "e1"));
    balance.update(Change::Insert(b, "e2"));
    balance.update(Change::Remove(a));
    assert_eq!(balance.len(), 1);
    assert_eq!(balance.find(a), None);
    for _ in 0..1000 {
        let i = match balance.select() {
            Ok(i) => i,
            Err(_) => panic!("one endpoint is known"),
        };
        assert_eq!(balance.addr(i), b);
        assert_eq!(*balance.service(i), "e2");
    }
}

#[test]
fn single_endpoint_is_always_selected() {
    let mut balance = empty();
    balance.update(Change::Insert(addr(9), "only"));
    assert_eq!(balance.poll_ready(), Async::Ready(()));
    for _ in 0..1000 {
        assert!(balance.select() == Ok(0));
    }
}

#[test]
fn of_two_endpoints_the_less_loaded_is_selected() {
    let mut balance = empty();
    balance.update(Change::Insert(addr(1), "busy"));
    balance.update(Change::Insert(addr(2), "idle"));
    load(&mut balance, 0, 5);
    load(&mut balance, 1, 1);
    assert_eq!(balance.pending(0), 5);
    assert_eq!(balance.pending(1), 1);
    let mut idle = 0;
    let mut busy = 0;
    for _ in 0..2000 {
        match balance.select() {
            Ok(1) => idle += 1,
            Ok(_) => busy += 1,
            Err(_) => panic!("two endpoints are known"),
        }
    }
    assert!(idle > busy);
    assert_eq!(busy, 0);
}

#[test]
fn selection_among_many_stays_in_range_and_avoids_the_most_loaded() {
    let mut balance = empty();
    for port in 0..5u16 {
        balance.update(Change::Insert(addr(port), "svc"));
    }
    load(&mut balance, 3, 10);
    let mut seen = [0usize; 5];
    for _ in 0..5000 {
        match balance.select() {
            Ok(i) => {
                assert!(i < 5);
                seen[i] += 1;
            },
            Err(_) => panic!("five endpoints are known"),
        }
    }
    assert_eq!(seen[3], 0);
    assert!(seen[0] > 0 && seen[1] > 0 && seen[2] > 0 && seen[4] > 0);
}

#[test]
fn prefer_takes_fewer_pending_and_the_first_on_a_tie() {
    let mut balance = empty();
    balance.update(Change::Insert(addr(1), "a"));
    balance.update(Change::Insert(addr(2), "b"));
    assert_eq!(balance.prefer(0, 1), 0);
    assert_eq!(balance.prefer(1, 0), 1);
    load(&mut balance, 0, 1);
    assert_eq!(balance.prefer(0, 1), 1);
    assert_eq!(balance.prefer(1, 0), 1);
}

#[test]
fn distinct_pair_wraps_round() {
    assert_eq!(distinct_pair(2, 0, 0), (0, 1));
    assert_eq!(distinct_pair(2, 1, 0), (1, 0));
    assert_eq!(distinct_pair(5, 3, 0), (3, 4));
    assert_eq!(distinct_pair(5, 3, 1), (3, 0));
    assert_eq!(distinct_pair(5, 3, 3), (3, 2));
    assert_eq!(distinct_pair(5, 4, 3), (4, 3));
    assert_eq!(distinct_pair(usize::MAX, usize::MAX - 1, usize::MAX - 2), (usize::MAX - 1, usize::MAX - 2));
}

#[test]
fn cancelled_call_leaves_the_count_as_it_was() {
    let mut balance = empty();
    balance.update(Change::Insert(addr(1), "a"));
    balance.update(Change::Insert(addr(2), "b"));
    load(&mut balance, 1, 3);
    let before = balance.pending(1);
    let ticket = balance.dispatch(1);
    assert_eq!(balance.pending(1), before + 1);
    assert_eq!(ticket.addr, addr(2));
    balance.complete(ticket);
    assert_eq!(balance.pending(1), before);
    assert_eq!(balance.pending(0), 0);
}

#[test]
fn ticket_of_a_removed_endpoint_changes_nothing() {
    let mut balance = empty();
    balance.update(Change::Insert(addr(1), "a"));
    balance.update(Change::Insert(addr(2), "b"));
    let ticket = balance.dispatch(0);
    load(&mut balance, 1, 2);
    balance.update(Change::Remove(addr(1)));
    balance.complete(ticket);
    assert_eq!(balance.len(), 1);
    assert_eq!(balance.addr(0), addr(2));
    assert_eq!(balance.pending(0), 2);
}

#[test]
fn replaced_endpoint_starts_with_nothing_pending() {
    let mut balance = empty();
    balance.update(Change::Insert(addr(1), "old"));
    balance.update(Change::Insert(addr(2), "other"));
    let stale = balance.dispatch(0);
    balance.update(Change::Insert(addr(1), "new"));
    assert_eq!(balance.len(), 2);
    assert_eq!(balance.find(addr(2)), Some(0));
    assert_eq!(balance.find(addr(1)), Some(1));
    assert_eq!(*balance.service(1), "new");
    assert_eq!(balance.pending(1), 0);
    let fresh = balance.dispatch(1);
    assert_ne!(stale, fresh);
    balance.complete(stale);
    assert_eq!(balance.pending(1), 1);
    balance.complete(fresh);
    assert_eq!(balance.pending(1), 0);
}

#[test]
fn ticket_is_spent_once() {
    let mut balance = empty();
    balance.update(Change::Insert(addr(1), "a"));
    let first = balance.dispatch(0);
    let second = balance.dispatch(0);
    assert_eq!(first, second);
    balance.complete(first);
    balance.complete(second);
    balance.complete(first);
    assert_eq!(balance.pending(0), 0);
}

#[test]
fn unknown_ticket_changes_nothing() {
    let mut balance = empty();
    balance.update(Change::Insert(addr(1), "a"));
    balance.dispatch(0);
    balance.complete(Ticket { addr: addr(7), instance: 0 });
    balance.complete(Ticket { addr: addr(1), instance: 99 });
    assert_eq!(balance.pending(0), 1);
}

#[test]
fn removing_an_unknown_address_changes_nothing() {
    let mut balance = empty();
    balance.update(Change::Insert(addr(1), "a"));
    balance.update(Change::Remove(addr(2)));
    assert_eq!(balance.len(), 1);
    assert_eq!(balance.addr(0), addr(1));
}

#[test]
fn removal_keeps_the_order_of_the_rest() {
    let mut balance = empty();
    for port in 1..=4u16 {
        balance.update(Change::Insert(addr(port), "svc"));
    }
    balance.update(Change::Remove(addr(2)));
    assert_eq!(balance.len(), 3);
    assert_eq!(balance.addr(0), addr(1));
    assert_eq!(balance.addr(1), addr(3));
    assert_eq!(balance.addr(2), addr(4));
}

#[test]
fn discovered_changes_are_taken_in() {
    let mut balance = empty();
    assert!(balance.discovered(Ok(Async::Ready(Change::Insert(addr(1), "a")))) == Ok(true));
    assert_eq!(balance.len(), 1);
    assert!(balance.discovered(Ok(Async::NotReady)) == Ok(false));
    assert_eq!(balance.len(), 1);
    assert!(balance.discovered(Ok(Async::Ready(Change::Remove(addr(1))))) == Ok(true));
    assert_eq!(balance.len(), 0);
}

#[test]
fn discovery_failure_is_the_balancers_failure() {
    let mut balance = empty();
    balance.update(Change::Insert(addr(1), "a"));
    assert!(balance.discovered(Err(())) == Err(BalanceError::Balance));
    assert_eq!(balance.len(), 1);
}

#[test]
fn balancer_polls_its_source() {
    let mut balance: Balance<&'static str> =
        Balance::new(Discovery::External(Some((addr(80), Protocol::Http1))));
    assert_eq!(balance.poll_discover(), Step::Bind(addr(80), Protocol::Http1));
    let polled = Discovery::bound::<&'static str, ()>(addr(80), Ok("bound"));
    assert!(balance.discovered(polled) == Ok(true));
    assert_eq!(balance.poll_discover(), Step::NotReady);
    assert_eq!(balance.len(), 1);
    assert!(balance.select() == Ok(0));
}
