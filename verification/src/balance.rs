//! The balancer: the endpoints that discovery has reported, the number of
//! calls each of them still has to answer, and the choice between two of
//! them picked at random.

use rand::Rng;
use vstd::prelude::*;
use crate::destination::SocketAddr;
use crate::discovery::{Change, Discovery, Step};
use crate::failure::BalanceError;
use crate::poll::{Async, Poll};

verus! {

/// One endpoint that the balancer knows.
pub struct Endpoint<S> {
    /// The address it was reported under.
    pub addr: SocketAddr,
    /// The number of the insertion that brought it: no two endpoints of one
    /// balancer ever share it, not even two at the same address.
    pub instance: u64,
    /// The calls dispatched to it that have not resolved yet.
    pub pending: usize,
    /// The service bound to the address.
    pub service: S,
}

/// Names the endpoint that a call was dispatched to, for the time when the
/// call resolves.
#[derive(Clone, Copy, Debug, PartialEq, Eq)]
pub struct Ticket {
    pub addr: SocketAddr,
    pub instance: u64,
}

/// Whether `addr` is the address of one of `members`.
pub open spec fn holds<S>(members: Seq<Endpoint<S>>, addr: SocketAddr) -> bool {
    exists|i: int| 0 <= i < members.len() && (#[trigger] members[i]).addr == addr
}

/// Where among `members` the endpoint at `addr` stands, if one does.
pub open spec fn position<S>(members: Seq<Endpoint<S>>, addr: SocketAddr) -> int {
    choose|i: int| 0 <= i < members.len() && (#[trigger] members[i]).addr == addr
}

/// `members` without the endpoint at `addr`.
pub open spec fn without<S>(members: Seq<Endpoint<S>>, addr: SocketAddr) -> Seq<Endpoint<S>> {
    if holds(members, addr) {
        members.remove(position(members, addr))
    } else {
        members
    }
}

/// `members` after the insertion numbered `issued` has brought `service` at
/// `addr`. An endpoint already known at that address gives way to the new
/// one, which starts with nothing pending.
pub open spec fn inserted<S>(
    members: Seq<Endpoint<S>>,
    issued: u64,
    addr: SocketAddr,
    service: S,
) -> Seq<Endpoint<S>> {
    without(members, addr).push(Endpoint { addr, instance: issued, pending: 0, service })
}

/// No address occurs twice.
pub open spec fn distinct<S>(members: Seq<Endpoint<S>>) -> bool {
    forall|i: int, j: int|
        0 <= i < j < members.len() ==> (#[trigger] members[i]).addr != (#[trigger] members[j]).addr
}

/// What holds of the endpoints of every balancer that has made `issued`
/// insertions: no address and no instance occurs twice, and every instance
/// is one of the insertions made.
pub open spec fn well_formed<S>(members: Seq<Endpoint<S>>, issued: u64) -> bool {
    &&& distinct(members)
    &&& forall|i: int| 0 <= i < members.len() ==> (#[trigger] members[i]).instance < issued
    &&& forall|i: int, j: int|
        0 <= i < j < members.len() ==> (#[trigger] members[i]).instance != (
        #[trigger] members[j]).instance
}

/// The ticket for a call dispatched to the endpoint at index `i`.
pub open spec fn ticket_of<S>(members: Seq<Endpoint<S>>, i: int) -> Ticket {
    Ticket { addr: members[i].addr, instance: members[i].instance }
}

/// `members` after one more call has been dispatched to the endpoint at
/// index `i`.
pub open spec fn dispatched<S>(members: Seq<Endpoint<S>>, i: int) -> Seq<Endpoint<S>> {
    members.update(i, Endpoint { pending: (members[i].pending + 1) as usize, ..members[i] })
}

/// Whether the endpoint that `ticket` names is still among `members`, with
/// a call pending.
pub open spec fn redeemable<S>(members: Seq<Endpoint<S>>, ticket: Ticket) -> bool {
    &&& holds(members, ticket.addr)
    &&& members[position(members, ticket.addr)].instance == ticket.instance
    &&& members[position(members, ticket.addr)].pending > 0
}

/// `members` after the call that `ticket` was given for has resolved. An
/// endpoint that is gone, or was replaced, took its count with it.
pub open spec fn completed<S>(members: Seq<Endpoint<S>>, ticket: Ticket) -> Seq<Endpoint<S>> {
    if redeemable(members, ticket) {
        let i = position(members, ticket.addr);
        members.update(i, Endpoint { pending: (members[i].pending - 1) as usize, ..members[i] })
    } else {
        members
    }
}

/// Of the endpoints at `a` and `b`, the one with fewer calls pending; on a
/// tie, `a`.
pub open spec fn preferred<S>(members: Seq<Endpoint<S>>, a: int, b: int) -> int {
    if members[a].pending <= members[b].pending {
        a
    } else {
        b
    }
}

/// What holds of the index `i` that a selection among `members` gives,
/// whichever endpoints were drawn for it: it is the index of a member, and
/// where there are two members or more, some other member has no fewer
/// calls pending.
pub open spec fn selectable<S>(members: Seq<Endpoint<S>>, i: int) -> bool {
    &&& 0 <= i < members.len()
    &&& members.len() >= 2 ==> exists|j: int|
        0 <= j < members.len() && j != i && members[i].pending <= (#[trigger] members[j]).pending
}

/// An endpoint with more calls pending than every other is never selected.
/// So of two endpoints with different counts, every selection goes to the
/// one with fewer.
pub proof fn most_loaded_is_never_selected<S>(members: Seq<Endpoint<S>>, most: int, i: int)
    requires
        members.len() >= 2,
        0 <= most < members.len(),
        forall|j: int|
            0 <= j < members.len() && j != most ==> (#[trigger] members[j]).pending
                < members[most].pending,
        selectable(members, i),
    ensures
        i != most,
        members.len() == 2 ==> i == 1 - most,
{
}

/// The only endpoint is the one selected.
pub proof fn only_endpoint_is_selected<S>(members: Seq<Endpoint<S>>, i: int)
    requires
        members.len() == 1,
        selectable(members, i),
    ensures
        i == 0,
{
}

/// A selection never gives an address that has been removed.
pub proof fn removed_is_never_selected<S>(
    members: Seq<Endpoint<S>>,
    issued: u64,
    addr: SocketAddr,
    i: int,
)
    requires
        well_formed(members, issued),
        selectable(without(members, addr), i),
    ensures
        without(members, addr)[i].addr != addr,
{
    removed_is_gone(members, issued, addr);
}

/// The second index of a pair drawn from `len` endpoints: `second` steps
/// past the one after `first`, going round at the end.
pub open spec fn partner(len: int, first: int, second: int) -> int {
    if first + 1 + second < len {
        first + 1 + second
    } else {
        first + 1 + second - len
    }
}

/// Turns two draws into two different indices below `len`: the first draw
/// is the first index, the second says how far behind it the other lies.
pub fn distinct_pair(len: usize, first: usize, second: usize) -> (pair: (usize, usize))
    requires
        len >= 2,
        first < len,
        second < len - 1,
    ensures
        pair.0 == first,
        pair.1 == partner(len as int, first as int, second as int),
        pair.0 != pair.1,
        pair.1 < len,
{
    let gap: usize = len - first;
    let step: usize = second + 1;
    if step < gap {
        (first, first + step)
    } else {
        (first, step - gap)
    }
}

/// Draws a number below `bound` from the thread's random number generator,
/// with `rand::Rng::gen_range(0, bound)`.
///
/// Trusted: the number lies below `bound`. Which one it is, is not stated:
/// two calls may differ. `gen_range` panics on an empty range, which the
/// `requires` leaves out; the generator itself needs the operating system to
/// have entropy for it.
#[verifier::external_body]
fn random_below(bound: usize) -> (n: usize)
    requires
        bound > 0,
    ensures
        n < bound,
{
    rand::thread_rng().gen_range(0, bound)
}

/// In a well-formed sequence an address has one place only.
pub proof fn position_is_unique<S>(members: Seq<Endpoint<S>>, addr: SocketAddr, i: int)
    requires
        distinct(members),
        0 <= i < members.len(),
        members[i].addr == addr,
    ensures
        holds(members, addr),
        position(members, addr) == i,
{
    let p = position(members, addr);
    if p < i {
        assert(members[p].addr != members[i].addr);
    } else if i < p {
        assert(members[i].addr != members[p].addr);
    }
}

/// Once an address has been removed, no endpoint stands at it; every other
/// endpoint stays, and the rest is well formed as before.
pub proof fn removed_is_gone<S>(members: Seq<Endpoint<S>>, issued: u64, addr: SocketAddr)
    requires
        well_formed(members, issued),
    ensures
        !holds(without(members, addr), addr),
        well_formed(without(members, addr), issued),
        forall|other: SocketAddr|
            other != addr ==> (#[trigger] holds(without(members, addr), other) == holds(
                members,
                other,
            )),
{
    let rest = without(members, addr);
    if holds(members, addr) {
        let p = position(members, addr);
        assert forall|k: int| 0 <= k < rest.len() implies (#[trigger] rest[k]).addr != addr by {
            if k < p {
                assert(rest[k] == members[k]);
                assert(members[k].addr != members[p].addr);
            } else {
                assert(rest[k] == members[k + 1]);
                assert(members[p].addr != members[k + 1].addr);
            }
        }
        assert forall|i: int, j: int| 0 <= i < j < rest.len() implies (#[trigger] rest[i]).addr != (
        #[trigger] rest[j]).addr && rest[i].instance != rest[j].instance by {
            let si = if i < p { i } else { i + 1 };
            let sj = if j < p { j } else { j + 1 };
            assert(rest[i] == members[si]);
            assert(rest[j] == members[sj]);
            assert(members[si].addr != members[sj].addr);
            assert(members[si].instance != members[sj].instance);
        }
        assert forall|i: int| 0 <= i < rest.len() implies (#[trigger] rest[i]).instance < issued by {
            let si = if i < p { i } else { i + 1 };
            assert(rest[i] == members[si]);
        }
        assert forall|other: SocketAddr| other != addr implies (#[trigger] holds(rest, other)
            == holds(members, other)) by {
            if holds(members, other) {
                let q = position(members, other);
                let r = if q < p { q } else { q - 1 };
                assert(rest[r] == members[q]);
            }
            if holds(rest, other) {
                let r = position(rest, other);
                let q = if r < p { r } else { r + 1 };
                assert(rest[r] == members[q]);
            }
        }
    }
}

/// An insertion leaves the endpoints well formed, with the new endpoint
/// last and nothing pending on it.
pub proof fn inserted_is_held<S>(members: Seq<Endpoint<S>>, issued: u64, addr: SocketAddr, service: S)
    requires
        well_formed(members, issued),
        issued < u64::MAX,
    ensures
        well_formed(inserted(members, issued, addr, service), (issued + 1) as u64),
        holds(inserted(members, issued, addr, service), addr),
        inserted(members, issued, addr, service).last().pending == 0,
{
    removed_is_gone(members, issued, addr);
    let rest = without(members, addr);
    let all = inserted(members, issued, addr, service);
    let n = rest.len() as int;
    assert(all[n].addr == addr);
    assert forall|i: int, j: int| 0 <= i < j < all.len() implies (#[trigger] all[i]).addr != (
    #[trigger] all[j]).addr && all[i].instance != all[j].instance by {
        assert(all[i] == rest[i]);
        if j < n {
            assert(all[j] == rest[j]);
        } else {
            assert(rest[i].addr != addr);
            assert(rest[i].instance < issued);
        }
    }
    assert forall|i: int| 0 <= i < all.len() implies (#[trigger] all[i]).instance < issued + 1 by {
        if i < n {
            assert(all[i] == rest[i]);
        }
    }
}

/// A call that resolves gives back what its dispatch took: the endpoints
/// are as they were before the call was issued.
pub proof fn completion_undoes_dispatch<S>(members: Seq<Endpoint<S>>, issued: u64, i: int)
    requires
        well_formed(members, issued),
        0 <= i < members.len(),
        members[i].pending < usize::MAX,
    ensures
        redeemable(dispatched(members, i), ticket_of(members, i)),
        completed(dispatched(members, i), ticket_of(members, i)) == members,
{
    let busy = dispatched(members, i);
    let ticket = ticket_of(members, i);
    assert forall|a: int, b: int| 0 <= a < b < busy.len() implies (#[trigger] busy[a]).addr != (
    #[trigger] busy[b]).addr by {
        assert(busy[a].addr == members[a].addr);
        assert(busy[b].addr == members[b].addr);
    }
    assert(busy[i].addr == ticket.addr);
    position_is_unique(busy, ticket.addr, i);
    assert(completed(busy, ticket) =~= members);
}

/// A balancer over the endpoints of one destination.
pub struct Balance<S> {
    discover: Discovery,
    endpoints: Vec<Endpoint<S>>,
    issued: u64,
}

impl<S> View for Balance<S> {
    type V = Seq<Endpoint<S>>;

    /// The endpoints known, in the order they came.
    closed spec fn view(&self) -> Seq<Endpoint<S>> {
        self.endpoints@
    }
}

impl<S> Balance<S> {
    /// What every balancer is: its endpoints are well formed for the
    /// insertions it has made.
    pub open spec fn wf(self) -> bool {
        well_formed(self@, self.issued())
    }

    /// The insertions made so far.
    pub closed spec fn issued(self) -> u64 {
        self.issued
    }

    /// The source of the endpoints.
    pub closed spec fn spec_source(self) -> Discovery {
        self.discover
    }

    /// A balancer that knows no endpoint yet.
    pub fn new(discover: Discovery) -> (balance: Self)
        ensures
            balance@ == Seq::<Endpoint<S>>::empty(),
            balance.issued() == 0,
            balance.spec_source() == discover,
            balance.wf(),
    {
        Balance { discover, endpoints: Vec::new(), issued: 0 }
    }

    pub fn len(&self) -> (n: usize)
        ensures
            n == self@.len(),
    {
        self.endpoints.len()
    }

    /// Whether one more insertion can be numbered.
    pub fn can_insert(&self) -> (yes: bool)
        ensures
            yes == (self.issued() < u64::MAX),
    {
        self.issued < u64::MAX
    }

    /// The index of the endpoint at `addr`.
    pub fn find(&self, addr: SocketAddr) -> (found: Option<usize>)
        requires
            self.wf(),
        ensures
            match found {
                Some(i) => holds(self@, addr) && i == position(self@, addr) && i < self@.len(),
                None => !holds(self@, addr),
            },
    {
        let mut i: usize = 0;
        while i < self.endpoints.len()
            invariant
                i <= self.endpoints.len(),
                distinct(self.endpoints@),
                forall|k: int| 0 <= k < i ==> (#[trigger] self.endpoints@[k]).addr != addr,
            decreases self.endpoints.len() - i,
        {
            if self.endpoints[i].addr == addr {
                proof {
                    position_is_unique(self.endpoints@, addr, i as int);
                }
                return Some(i);
            }
            i += 1;
        }
        None
    }

    pub fn addr(&self, i: usize) -> (addr: SocketAddr)
        requires
            i < self@.len(),
        ensures
            addr == self@[i as int].addr,
    {
        self.endpoints[i].addr
    }

    pub fn pending(&self, i: usize) -> (n: usize)
        requires
            i < self@.len(),
        ensures
            n == self@[i as int].pending,
    {
        self.endpoints[i].pending
    }

    pub fn service(&self, i: usize) -> (service: &S)
        requires
            i < self@.len(),
        ensures
            *service == self@[i as int].service,
    {
        &self.endpoints[i].service
    }

    pub fn service_mut(&mut self, i: usize) -> (service: &mut S)
        requires
            i < old(self)@.len(),
        ensures
            *service == old(self)@[i as int].service,
            final(self)@ == old(self)@.update(
                i as int,
                Endpoint { service: *final(service), ..old(self)@[i as int] },
            ),
            final(self).issued() == old(self).issued(),
            final(self).spec_source() == old(self).spec_source(),
            old(self).wf() ==> final(self).wf(),
    {
        &mut self.endpoints[i].service
    }

    /// The source of the endpoints.
    pub fn source(&self) -> (source: &Discovery)
        ensures
            *source == self.spec_source(),
    {
        &self.discover
    }

    /// Polls the source of the endpoints.
    pub fn poll_discover(&mut self) -> (step: Step)
        ensures
            step == old(self).spec_source()@.step(),
            final(self).spec_source()@ == old(self).spec_source()@.polled(),
            final(self)@ == old(self)@,
            final(self).issued() == old(self).issued(),
            old(self).wf() ==> final(self).wf(),
    {
        self.discover.poll()
    }

    /// Takes one change of the endpoints in.
    pub fn update(&mut self, change: Change<S>)
        requires
            old(self).wf(),
            change is Insert ==> old(self).issued() < u64::MAX,
        ensures
            final(self).spec_source() == old(self).spec_source(),
            match change {
                Change::Insert(addr, service) => {
                    &&& final(self)@ == inserted(old(self)@, old(self).issued(), addr, service)
                    &&& final(self).issued() == old(self).issued() + 1
                },
                Change::Remove(addr) => {
                    &&& final(self)@ == without(old(self)@, addr)
                    &&& final(self).issued() == old(self).issued()
                },
            },
            final(self).wf(),
    {
        match change {
            Change::Insert(addr, service) => {
                proof {
                    inserted_is_held(self.endpoints@, self.issued, addr, service);
                    removed_is_gone(self.endpoints@, self.issued, addr);
                }
                let instance = self.issued;
                self.issued = self.issued + 1;
                match self.find(addr) {
                    Some(i) => {
                        self.endpoints.remove(i);
                    },
                    None => {},
                }
                self.endpoints.push(Endpoint { addr, instance, pending: 0, service });
            },
            Change::Remove(addr) => {
                proof {
                    removed_is_gone(self.endpoints@, self.issued, addr);
                }
                match self.find(addr) {
                    Some(i) => {
                        self.endpoints.remove(i);
                    },
                    None => {},
                }
            },
        }
    }

    /// Takes in what a poll of the source reported. A change is taken in,
    /// and the source is to be polled again; without a change there is
    /// nothing more to do; a failure of discovery is the balancer's own.
    pub fn discovered(&mut self, polled: Poll<Change<S>, ()>) -> (again: Result<bool, BalanceError>)
        requires
            old(self).wf(),
            polled matches Ok(Async::Ready(Change::Insert(_, _))) ==> old(self).issued() < u64::MAX,
        ensures
            final(self).spec_source() == old(self).spec_source(),
            final(self).wf(),
            match polled {
                Ok(Async::Ready(Change::Insert(addr, service))) => {
                    &&& again == Ok::<bool, BalanceError>(true)
                    &&& final(self)@ == inserted(old(self)@, old(self).issued(), addr, service)
                    &&& final(self).issued() == old(self).issued() + 1
                },
                Ok(Async::Ready(Change::Remove(addr))) => {
                    &&& again == Ok::<bool, BalanceError>(true)
                    &&& final(self)@ == without(old(self)@, addr)
                    &&& final(self).issued() == old(self).issued()
                },
                Ok(Async::NotReady) => {
                    &&& again == Ok::<bool, BalanceError>(false)
                    &&& final(self)@ == old(self)@
                    &&& final(self).issued() == old(self).issued()
                },
                Err(_) => {
                    &&& again == Err::<bool, BalanceError>(BalanceError::Balance)
                    &&& final(self)@ == old(self)@
                    &&& final(self).issued() == old(self).issued()
                },
            },
    {
        match polled {
            Ok(Async::Ready(change)) => {
                self.update(change);
                Ok(true)
            },
            Ok(Async::NotReady) => Ok(false),
            Err(_) => Err(BalanceError::Balance),
        }
    }

    /// Whether a call can be taken: it can as soon as one endpoint is known.
    pub fn poll_ready(&self) -> (ready: Async<()>)
        ensures
            ready is Ready <==> self@.len() > 0,
    {
        if self.endpoints.len() > 0 {
            Async::Ready(())
        } else {
            Async::NotReady
        }
    }

    /// Of the endpoints at indices `a` and `b`, the one with fewer calls
    /// pending.
    pub fn prefer(&self, a: usize, b: usize) -> (chosen: usize)
        requires
            a < self@.len(),
            b < self@.len(),
        ensures
            chosen == preferred(self@, a as int, b as int),
    {
        if self.endpoints[a].pending <= self.endpoints[b].pending {
            a
        } else {
            b
        }
    }

    /// Chooses the endpoint for the next call. With no endpoint the call
    /// fails as not ready, and the only endpoint is chosen where there is
    /// just one. Otherwise two different endpoints are drawn at random, and
    /// the one of them with fewer calls pending is chosen: whichever were
    /// drawn, some other endpoint has no fewer pending than the chosen one.
    pub fn select(&self) -> (chosen: Result<usize, BalanceError>)
        ensures
            self@.len() == 0 <==> chosen is Err,
            chosen is Err ==> chosen == Err::<usize, BalanceError>(BalanceError::NotReady),
            self@.len() == 1 ==> chosen == Ok::<usize, BalanceError>(0),
            chosen matches Ok(i) ==> selectable(self@, i as int),
    {
        let len = self.endpoints.len();
        if len == 0 {
            Err(BalanceError::NotReady)
        } else if len == 1 {
            Ok(0)
        } else {
            let first = random_below(len);
            let second = random_below(len - 1);
            let (a, b) = distinct_pair(len, first, second);
            let chosen = self.prefer(a, b);
            assert(self@[chosen as int].pending <= self@[a as int].pending);
            assert(self@[chosen as int].pending <= self@[b as int].pending);
            Ok(chosen)
        }
    }

    /// Counts one more call for the endpoint at index `i`, and gives the
    /// ticket to hand back when the call has resolved.
    pub fn dispatch(&mut self, i: usize) -> (ticket: Ticket)
        requires
            old(self).wf(),
            i < old(self)@.len(),
            old(self)@[i as int].pending < usize::MAX,
        ensures
            final(self)@ == dispatched(old(self)@, i as int),
            ticket == ticket_of(old(self)@, i as int),
            final(self).issued() == old(self).issued(),
            final(self).spec_source() == old(self).spec_source(),
            final(self).wf(),
    {
        let ghost before = self.endpoints@;
        let ticket = Ticket { addr: self.endpoints[i].addr, instance: self.endpoints[i].instance };
        let mut endpoint = self.endpoints.remove(i);
        endpoint.pending = endpoint.pending + 1;
        self.endpoints.insert(i, endpoint);
        proof {
            assert(self.endpoints@ =~= dispatched(before, i as int));
            carried_over(before, self.endpoints@, self.issued);
        }
        ticket
    }

    /// Takes note that the call `ticket` was given for has resolved: with a
    /// response, with a failure, or because its caller gave it up.
    pub fn complete(&mut self, ticket: Ticket)
        requires
            old(self).wf(),
        ensures
            final(self)@ == completed(old(self)@, ticket),
            final(self).issued() == old(self).issued(),
            final(self).spec_source() == old(self).spec_source(),
            final(self).wf(),
    {
        let ghost before = self.endpoints@;
        match self.find(ticket.addr) {
            Some(i) => {
                if self.endpoints[i].instance == ticket.instance && self.endpoints[i].pending > 0 {
                    let mut endpoint = self.endpoints.remove(i);
                    endpoint.pending = endpoint.pending - 1;
                    self.endpoints.insert(i, endpoint);
                    proof {
                        assert(self.endpoints@ =~= completed(before, ticket));
                        carried_over(before, self.endpoints@, self.issued);
                    }
                }
            },
            None => {},
        }
    }
}

/// Endpoints that differ from well-formed ones in their counts only are
/// well formed too.
proof fn carried_over<S>(before: Seq<Endpoint<S>>, after: Seq<Endpoint<S>>, issued: u64)
    requires
        well_formed(before, issued),
        before.len() == after.len(),
        forall|k: int|
            0 <= k < before.len() ==> (#[trigger] after[k]).addr == before[k].addr
                && after[k].instance == before[k].instance,
    ensures
        well_formed(after, issued),
{
    assert forall|i: int, j: int| 0 <= i < j < after.len() implies (#[trigger] after[i]).addr != (
    #[trigger] after[j]).addr && after[i].instance != after[j].instance by {
        assert(before[i].addr != before[j].addr);
        assert(before[i].instance != before[j].instance);
    }
    assert forall|i: int| 0 <= i < after.len() implies (#[trigger] after[i]).instance < issued by {
        assert(before[i].instance < issued);
    }
}

} // verus!
