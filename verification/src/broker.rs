//! Data model of the broker session: endpoint, channel handle, topology,
//! publish request, and the outcome/error taxonomy shared by the whole
//! lifecycle machine.

use vstd::prelude::*;

verus! {

/// Maximum frame size negotiated during the protocol handshake; a fixed
/// configuration constant of this library.
pub const FRAME_MAX: u32 = 65535;

/// Reply code sent to the broker on an orderly channel close.
pub const CLOSE_REPLY_CODE: u16 = 200;

/// Transport endpoint (IPv4 host and port) of the message broker.
///
/// Immutable once a middleware is constructed; every per-request middleware
/// instance shares the same endpoint.
#[derive(Clone, Copy, PartialEq, Eq, Structural, Debug)]
pub struct BrokerAddress {
    pub octet0: u8,
    pub octet1: u8,
    pub octet2: u8,
    pub octet3: u8,
    pub port: u16,
}

/// An opaque reference to one live broker channel, identified by the channel
/// number the broker negotiated.
#[derive(Clone, Copy, PartialEq, Eq, Structural, Debug)]
pub struct ChannelHandle {
    pub id: u16,
}

/// The (queue, exchange, binding routing key) triple a caller wants
/// provisioned before publishing.
pub struct Topology {
    pub queue: String,
    pub exchange: String,
    pub routing_key: String,
}

/// Mathematical view of a [`Topology`]: the three names as character
/// sequences.
#[verifier::ext_equal]
pub struct TopologyView {
    pub queue: Seq<char>,
    pub exchange: Seq<char>,
    pub routing_key: Seq<char>,
}

impl View for Topology {
    type V = TopologyView;

    open spec fn view(&self) -> TopologyView {
        TopologyView {
            queue: self.queue@,
            exchange: self.exchange@,
            routing_key: self.routing_key@,
        }
    }
}

/// One message to publish: target exchange, routing key and payload bytes.
/// Transient — built per publish call, discarded after the confirmation.
pub struct PublishRequest {
    pub exchange: String,
    pub routing_key: String,
    pub payload: Vec<u8>,
}

/// Mathematical view of a [`PublishRequest`].
#[verifier::ext_equal]
pub struct PublishRequestView {
    pub exchange: Seq<char>,
    pub routing_key: Seq<char>,
    pub payload: Seq<u8>,
}

impl View for PublishRequest {
    type V = PublishRequestView;

    open spec fn view(&self) -> PublishRequestView {
        PublishRequestView {
            exchange: self.exchange@,
            routing_key: self.routing_key@,
            payload: self.payload@,
        }
    }
}

/// The provisioning step that a declare/bind failure is tagged with.
#[derive(Clone, Copy, PartialEq, Eq, Structural, Debug)]
pub enum TopologyStep {
    QueueDeclare,
    ExchangeDeclare,
    QueueBind,
}

/// Why an establishment attempt failed. Every variant leaves the channel
/// slot empty so that a later acquire may retry.
#[derive(Clone, Copy, PartialEq, Eq, Structural, Debug)]
pub enum AcquireError {
    /// The transport connect was refused, unreachable, or timed out.
    Transport,
    /// The protocol negotiation failed.
    Handshake,
    /// The confirm-channel open failed.
    Channel,
    /// The broker rejected a declare/bind call, tagged with the failing step.
    Topology(TopologyStep),
}

/// Why a publish yielded no confirmation at all.
#[derive(Clone, Copy, PartialEq, Eq, Structural, Debug)]
pub enum PublishError {
    /// The channel is known closed; the cached handle is discarded.
    ChannelClosed,
    /// The transport failed during the send without a channel-close; the
    /// cached handle is kept, the message must be treated as undelivered.
    TransportLost,
}

/// Outcome of one confirm-mode publish, surfaced to the caller.
#[derive(Clone, Copy, PartialEq, Eq, Structural, Debug)]
pub enum ConfirmationResult {
    /// The broker returned a positive confirmation: the message is delivered.
    Acknowledged,
    /// The broker returned a negative confirmation: the message must be
    /// treated as not reliably delivered.
    NotAcknowledged,
}

} // verus!
