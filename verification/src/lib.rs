//! The outbound routing core of a transparent sidecar proxy.
//!
//! A request that arrives on the outbound listener is recognized as bound for
//! a destination, and each destination gets a pipeline of its own: a balancer
//! over the endpoints that discovery reports, behind a buffer, an admission
//! limiter, a timeout and a wrapper that renders readiness failures for the
//! operator. Every decision these stages make is a function here, with its
//! contract; the futures, timers and sockets that carry them out are the
//! caller's.

pub mod balance;
pub mod buffer;
pub mod destination;
pub mod discovery;
pub mod duration;
pub mod failure;
pub mod limit;
pub mod log_errors;
pub mod pipeline;
pub mod poll;
pub mod recognize;
pub mod request;
pub mod router;
pub mod timeout;
