//! A middleware library for dispatching messages to an AMQP broker from an
//! HTTP request pipeline.
//!
//! The library models the broker-session lifecycle — transport connect,
//! protocol handshake, confirm-channel open, topology provisioning, publish
//! with delivery confirmation — as a verified state machine. Every
//! suspending broker operation becomes an [`cache::Action`] handed to the
//! surrounding runtime, and every outcome comes back as an event: the
//! machine decides, the runtime performs. The [`cache::ChannelCache`] owns
//! the process-wide channel slot and guarantees the single-flight
//! discipline: at most one establishment run per empty slot, and a cached
//! handle is served without any further network step.

pub mod broker;
pub mod cache;
pub mod middleware;
pub mod provision;
