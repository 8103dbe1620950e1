//! The failures of a pipeline, one type for each stage, each holding the
//! failure of the stage below it.
//!
//! From the outside in: the timeout, the admission limiter, the buffer, the
//! balancer, the reconnecting endpoint, the connection attempt, and at the
//! bottom the transport with a timeout of its own.

use vstd::prelude::*;
use vstd::string::*;
use crate::duration::Duration;

verus! {

/// `name(inner)`, the debug form of a variant with one field.
pub open spec fn wrapped(name: Seq<char>, inner: Seq<char>) -> Seq<char> {
    name + "("@ + inner + ")"@
}

/// Writes `name(inner)`.
pub fn wrap(name: &str, inner: &str) -> (text: String)
    ensures
        text@ == wrapped(name@, inner@),
{
    let mut text = String::from_str(name);
    text.append("(");
    text.append(inner);
    text.append(")");
    text
}

/// What every stage's failure can say of itself.
pub trait Failure {
    /// The failure in debug form: each variant by its name, with what it
    /// holds in round brackets behind it.
    spec fn debug_text(&self) -> Seq<char>;

    /// The timeout that lies at the bottom of this failure, if its innermost
    /// cause is one.
    spec fn timed_out(&self) -> Option<Duration>;

    fn render(&self) -> (text: String)
        ensures
            text@ == self.debug_text(),
    ;

    fn innermost_timeout(&self) -> (after: Option<Duration>)
        ensures
            after == self.timed_out(),
    ;
}

/// A failure from below the connection binder, kept as the text its source
/// gave for it in debug form.
#[derive(Clone, PartialEq, Eq)]
pub struct TransportError {
    text: String,
}

impl View for TransportError {
    type V = Seq<char>;

    closed spec fn view(&self) -> Seq<char> {
        self.text@
    }
}

impl TransportError {
    pub fn new(text: String) -> (e: Self)
        ensures
            e@ == text@,
    {
        TransportError { text }
    }
}

impl Failure for TransportError {
    open spec fn debug_text(&self) -> Seq<char> {
        self@
    }

    open spec fn timed_out(&self) -> Option<Duration> {
        None
    }

    fn render(&self) -> (text: String) {
        self.text.clone()
    }

    fn innermost_timeout(&self) -> (after: Option<Duration>) {
        None
    }
}

/// The failure of a stage that gives up after a set time: either the time
/// ran out, or the stage below failed first.
#[derive(Clone, PartialEq, Eq)]
pub enum TimeoutError<E> {
    Error(E),
    Timeout(Duration),
}

impl<E: Failure> Failure for TimeoutError<E> {
    open spec fn debug_text(&self) -> Seq<char> {
        match *self {
            TimeoutError::Error(e) => wrapped("Error"@, e.debug_text()),
            TimeoutError::Timeout(after) => wrapped("Timeout"@, after.debug_text()),
        }
    }

    open spec fn timed_out(&self) -> Option<Duration> {
        match *self {
            TimeoutError::Error(e) => e.timed_out(),
            TimeoutError::Timeout(after) => Some(after),
        }
    }

    fn render(&self) -> (text: String) {
        match self {
            TimeoutError::Error(e) => wrap("Error", e.render().as_str()),
            TimeoutError::Timeout(after) => wrap("Timeout", after.debug().as_str()),
        }
    }

    fn innermost_timeout(&self) -> (after: Option<Duration>) {
        match self {
            TimeoutError::Error(e) => e.innermost_timeout(),
            TimeoutError::Timeout(after) => Some(*after),
        }
    }
}

/// The failure of a connection attempt: the transport did not connect in
/// time or at all, or the protocol handshake on it failed.
#[derive(Clone, PartialEq, Eq)]
pub enum ConnectError {
    Connect(TimeoutError<TransportError>),
    Handshake(TransportError),
}

impl Failure for ConnectError {
    open spec fn debug_text(&self) -> Seq<char> {
        match *self {
            ConnectError::Connect(e) => wrapped("Connect"@, e.debug_text()),
            ConnectError::Handshake(e) => wrapped("Handshake"@, e.debug_text()),
        }
    }

    open spec fn timed_out(&self) -> Option<Duration> {
        match *self {
            ConnectError::Connect(e) => e.timed_out(),
            ConnectError::Handshake(_) => None,
        }
    }

    fn render(&self) -> (text: String) {
        match self {
            ConnectError::Connect(e) => wrap("Connect", e.render().as_str()),
            ConnectError::Handshake(e) => wrap("Handshake", e.render().as_str()),
        }
    }

    fn innermost_timeout(&self) -> (after: Option<Duration>) {
        match self {
            ConnectError::Connect(e) => e.innermost_timeout(),
            ConnectError::Handshake(_) => None,
        }
    }
}

/// The failure of an endpoint that connects anew when its connection is
/// lost.
#[derive(Clone, PartialEq, Eq)]
pub enum ReconnectError {
    Inner(TransportError),
    Connect(ConnectError),
    NotReady,
}

impl Failure for ReconnectError {
    open spec fn debug_text(&self) -> Seq<char> {
        match *self {
            ReconnectError::Inner(e) => wrapped("Inner"@, e.debug_text()),
            ReconnectError::Connect(e) => wrapped("Connect"@, e.debug_text()),
            ReconnectError::NotReady => "NotReady"@,
        }
    }

    open spec fn timed_out(&self) -> Option<Duration> {
        match *self {
            ReconnectError::Connect(e) => e.timed_out(),
            _ => None,
        }
    }

    fn render(&self) -> (text: String) {
        match self {
            ReconnectError::Inner(e) => wrap("Inner", e.render().as_str()),
            ReconnectError::Connect(e) => wrap("Connect", e.render().as_str()),
            ReconnectError::NotReady => String::from_str("NotReady"),
        }
    }

    fn innermost_timeout(&self) -> (after: Option<Duration>) {
        match self {
            ReconnectError::Connect(e) => e.innermost_timeout(),
            _ => None,
        }
    }
}

/// The failure of the balancer: of the endpoint it chose, of discovery, or
/// of a call made while no endpoint was ready.
#[derive(Clone, PartialEq, Eq)]
pub enum BalanceError {
    Inner(ReconnectError),
    /// Discovery failed. Its cause is not kept.
    Balance,
    NotReady,
}

impl Failure for BalanceError {
    open spec fn debug_text(&self) -> Seq<char> {
        match *self {
            BalanceError::Inner(e) => wrapped("Inner"@, e.debug_text()),
            BalanceError::Balance => "Balance(())"@,
            BalanceError::NotReady => "NotReady"@,
        }
    }

    open spec fn timed_out(&self) -> Option<Duration> {
        match *self {
            BalanceError::Inner(e) => e.timed_out(),
            _ => None,
        }
    }

    fn render(&self) -> (text: String) {
        match self {
            BalanceError::Inner(e) => wrap("Inner", e.render().as_str()),
            BalanceError::Balance => String::from_str("Balance(())"),
            BalanceError::NotReady => String::from_str("NotReady"),
        }
    }

    fn innermost_timeout(&self) -> (after: Option<Duration>) {
        match self {
            BalanceError::Inner(e) => e.innermost_timeout(),
            _ => None,
        }
    }
}

/// The failure of the buffer: of the balancer behind it, or that the worker
/// which serves the queue is gone.
#[derive(Clone, PartialEq, Eq)]
pub enum BufferError {
    Inner(BalanceError),
    Closed,
}

impl Failure for BufferError {
    open spec fn debug_text(&self) -> Seq<char> {
        match *self {
            BufferError::Inner(e) => wrapped("Inner"@, e.debug_text()),
            BufferError::Closed => "Closed"@,
        }
    }

    open spec fn timed_out(&self) -> Option<Duration> {
        match *self {
            BufferError::Inner(e) => e.timed_out(),
            BufferError::Closed => None,
        }
    }

    fn render(&self) -> (text: String) {
        match self {
            BufferError::Inner(e) => wrap("Inner", e.render().as_str()),
            BufferError::Closed => String::from_str("Closed"),
        }
    }

    fn innermost_timeout(&self) -> (after: Option<Duration>) {
        match self {
            BufferError::Inner(e) => e.innermost_timeout(),
            BufferError::Closed => None,
        }
    }
}

/// The failure of the admission limiter: the pipeline was at capacity, or
/// the stage below failed.
#[derive(Clone, PartialEq, Eq)]
pub enum InFlightLimitError {
    NoCapacity,
    Upstream(BufferError),
}

impl Failure for InFlightLimitError {
    open spec fn debug_text(&self) -> Seq<char> {
        match *self {
            InFlightLimitError::NoCapacity => "NoCapacity"@,
            InFlightLimitError::Upstream(e) => wrapped("Upstream"@, e.debug_text()),
        }
    }

    open spec fn timed_out(&self) -> Option<Duration> {
        match *self {
            InFlightLimitError::NoCapacity => None,
            InFlightLimitError::Upstream(e) => e.timed_out(),
        }
    }

    fn render(&self) -> (text: String) {
        match self {
            InFlightLimitError::NoCapacity => String::from_str("NoCapacity"),
            InFlightLimitError::Upstream(e) => wrap("Upstream", e.render().as_str()),
        }
    }

    fn innermost_timeout(&self) -> (after: Option<Duration>) {
        match self {
            InFlightLimitError::NoCapacity => None,
            InFlightLimitError::Upstream(e) => e.innermost_timeout(),
        }
    }
}

/// The failure that a whole pipeline reports.
pub type LogError = TimeoutError<InFlightLimitError>;

} // verus!
