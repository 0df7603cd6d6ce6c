//! The middleware adapter's decision logic.
//!
//! A middleware is constructed once with the broker endpoint; the request
//! pipeline then asks for a fresh instance per request — a cheap copy of the
//! shared endpoint, never a new connection — and each request gets a
//! [`LapinChannel`] value attached to its context. The pipeline wiring
//! itself (registering the middleware, storing the value in the request
//! context, invoking the next stage) lives with the runtime; what is here is
//! everything those steps decide.

use vstd::prelude::*;

use crate::broker::BrokerAddress;
use crate::cache::{cache_wf, CacheModel, ChannelCache};

verus! {

/// The per-request handle attached to the request context: the broker
/// endpoint every request shares. Its channel access goes through the one
/// [`ChannelCache`] of the process.
pub struct LapinChannel {
    pub addr: BrokerAddress,
}

impl LapinChannel {
    /// Start a session towards this handle's endpoint: an empty cache whose
    /// establishment machine will connect on first acquire.
    pub fn open_cache(&self) -> (r: ChannelCache)
        ensures
            r@ == (CacheModel { addr: self.addr, slot: None, flight: None }),
            cache_wf(r@),
    {
        ChannelCache::new(self.addr)
    }
}

/// A middleware that lets request handlers dispatch messages to an AMQP
/// queue. Holds the broker endpoint, fixed for the process lifetime.
pub struct LapinMiddleware {
    pub addr: BrokerAddress,
}

impl LapinMiddleware {
    /// A middleware for the broker at `addr`.
    pub fn new(addr: BrokerAddress) -> (r: LapinMiddleware)
        ensures
            r.addr == addr,
    {
        LapinMiddleware { addr }
    }

    /// The per-request instance the pipeline asks for: it shares the same
    /// endpoint and is nothing more — instantiating it per request is cheap
    /// and never re-establishes a connection.
    pub fn new_middleware(&self) -> (r: LapinMiddleware)
        ensures
            r.addr == self.addr,
    {
        LapinMiddleware { addr: self.addr }
    }

    /// The value the middleware attaches to a request's context before
    /// invoking the next stage; the context itself passes on unmodified.
    pub fn attach(&self) -> (r: LapinChannel)
        ensures
            r.addr == self.addr,
    {
        LapinChannel { addr: self.addr }
    }
}

} // verus!
