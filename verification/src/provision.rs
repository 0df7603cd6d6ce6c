//! Broker-side effect of topology provisioning.
//!
//! The broker owns the queues, exchanges and bindings; this module models
//! that state as sets of names and states what one provisioning run — the
//! declare-queue, declare-exchange and bind steps of the establishment
//! machine, in that order — does to it. The central law is idempotence:
//! each declare/bind call, and a whole run, is a no-op when repeated with
//! identical parameters, which is why re-provisioning after a reconnect is
//! harmless.

use vstd::prelude::*;

use crate::broker::TopologyView;

verus! {

/// One binding the broker holds: messages published to `exchange` with
/// `routing_key` are routed to `queue`.
#[verifier::ext_equal]
pub struct BindingView {
    pub queue: Seq<char>,
    pub exchange: Seq<char>,
    pub routing_key: Seq<char>,
}

/// The broker's topology state: the declared queues, the declared direct
/// exchanges, and the bindings between them.
#[verifier::ext_equal]
pub struct BrokerTopology {
    pub queues: Set<Seq<char>>,
    pub exchanges: Set<Seq<char>>,
    pub bindings: Set<BindingView>,
}

/// A broker with no topology declared.
pub open spec fn empty_broker() -> BrokerTopology {
    BrokerTopology { queues: Set::empty(), exchanges: Set::empty(), bindings: Set::empty() }
}

/// Effect of one queue declaration: the queue exists afterwards; an already
/// existing queue of the same name is left as it is.
pub open spec fn declare_queue(b: BrokerTopology, queue: Seq<char>) -> BrokerTopology {
    BrokerTopology { queues: b.queues.insert(queue), exchanges: b.exchanges, bindings: b.bindings }
}

/// Effect of one direct-exchange declaration.
pub open spec fn declare_exchange(b: BrokerTopology, exchange: Seq<char>) -> BrokerTopology {
    BrokerTopology {
        queues: b.queues,
        exchanges: b.exchanges.insert(exchange),
        bindings: b.bindings,
    }
}

/// Effect of one bind call.
pub open spec fn bind_queue(b: BrokerTopology, binding: BindingView) -> BrokerTopology {
    BrokerTopology {
        queues: b.queues,
        exchanges: b.exchanges,
        bindings: b.bindings.insert(binding),
    }
}

/// The binding a topology triple asks for.
pub open spec fn binding_of(t: TopologyView) -> BindingView {
    BindingView { queue: t.queue, exchange: t.exchange, routing_key: t.routing_key }
}

/// Effect of one whole provisioning run for the triple `t`: queue, then
/// exchange, then binding.
pub open spec fn provision(b: BrokerTopology, t: TopologyView) -> BrokerTopology {
    bind_queue(declare_exchange(declare_queue(b, t.queue), t.exchange), binding_of(t))
}

/// A provisioning run establishes its triple.
pub proof fn lemma_provision_establishes(b: BrokerTopology, t: TopologyView)
    ensures
        provision(b, t).queues.contains(t.queue),
        provision(b, t).exchanges.contains(t.exchange),
        provision(b, t).bindings.contains(binding_of(t)),
{
}

/// Declaring a queue twice with the same name equals declaring it once.
pub proof fn lemma_declare_queue_idempotent(b: BrokerTopology, queue: Seq<char>)
    ensures
        declare_queue(declare_queue(b, queue), queue) == declare_queue(b, queue),
{
    assert(declare_queue(declare_queue(b, queue), queue) =~= declare_queue(b, queue));
}

/// Declaring an exchange twice with the same name equals declaring it once.
pub proof fn lemma_declare_exchange_idempotent(b: BrokerTopology, exchange: Seq<char>)
    ensures
        declare_exchange(declare_exchange(b, exchange), exchange) == declare_exchange(b, exchange),
{
    assert(declare_exchange(declare_exchange(b, exchange), exchange) =~= declare_exchange(
        b,
        exchange,
    ));
}

/// Binding twice with the same parameters equals binding once.
pub proof fn lemma_bind_queue_idempotent(b: BrokerTopology, binding: BindingView)
    ensures
        bind_queue(bind_queue(b, binding), binding) == bind_queue(b, binding),
{
    assert(bind_queue(bind_queue(b, binding), binding) =~= bind_queue(b, binding));
}

/// Idempotence law: provisioning the same topology triple twice is
/// equivalent to provisioning it once.
pub proof fn lemma_provision_idempotent(b: BrokerTopology, t: TopologyView)
    ensures
        provision(provision(b, t), t) == provision(b, t),
{
    assert(provision(provision(b, t), t) =~= provision(b, t));
}

} // verus!
