//! The channel cache and the establishment state machine.
//!
//! Every broker operation suspends, so the lifecycle is split the classic
//! way: this module holds the decisions — which operation comes next, what
//! each outcome means — and the surrounding runtime performs the operations.
//! One [`ChannelCache`] owns the process-wide channel slot; it serves a
//! cached handle without any network step, and admits at most one
//! establishment run at a time (single-flight).

use vstd::prelude::*;

use crate::broker::{
    AcquireError, BrokerAddress, ChannelHandle, ConfirmationResult, PublishError, Topology,
    TopologyStep, TopologyView, FRAME_MAX,
};

verus! {

/// Where an in-flight establishment run stands. The stages run strictly in
/// declaration order: connect, handshake, channel open, then the three
/// topology steps.
#[derive(Clone, Copy, PartialEq, Eq, Structural, Debug)]
pub enum Stage {
    Connecting,
    Handshaking,
    OpeningChannel,
    DeclaringQueue,
    DeclaringExchange,
    BindingQueue,
}

/// The one suspending broker operation the runtime must perform next.
///
/// `Connect` opens the transport to the endpoint; `Handshake` negotiates the
/// protocol with the given maximum frame size (and on success the runtime
/// spawns the detached heartbeat task for the new session);
/// `OpenConfirmChannel` requests a channel in confirm mode; the three
/// topology actions declare the queue, declare the direct exchange, and bind
/// them with the routing key of the topology under establishment.
#[derive(Clone, Copy, PartialEq, Eq, Structural, Debug)]
pub enum Action {
    Connect(BrokerAddress),
    Handshake(u32),
    OpenConfirmChannel,
    DeclareQueue,
    DeclareExchange,
    BindQueue,
}

/// What the runtime reports back after performing an establishment action.
#[derive(Clone, Copy, PartialEq, Eq, Structural, Debug)]
pub enum SessionEvent {
    Connected,
    ConnectFailed,
    HandshakeCompleted,
    HandshakeFailed,
    ChannelOpened(u16),
    ChannelOpenFailed,
    QueueDeclared,
    QueueDeclareFailed,
    ExchangeDeclared,
    ExchangeDeclareFailed,
    QueueBound,
    QueueBindFailed,
}

/// Broker-side outcome of one confirm-mode publish, as the runtime observed
/// it: a positive or negative confirmation, a channel known closed, or a
/// transport failure without any confirmation.
#[derive(Clone, Copy, PartialEq, Eq, Structural, Debug)]
pub enum ConfirmEvent {
    Ack,
    Nack,
    ChannelClosed,
    TransportLost,
}

/// How one acquire call was answered.
#[derive(Clone, Copy, PartialEq, Eq, Structural, Debug)]
pub enum AcquireStart {
    /// The slot already held a handle: it is returned at once, with no
    /// network suspension.
    Cached(ChannelHandle),
    /// The slot was empty and nothing was in flight: this call — and only
    /// this call — starts the establishment run.
    Started,
    /// Another caller's run is in flight: this caller awaits that run's
    /// result instead of starting a second one.
    Joined,
}

/// What one establishment event produced.
#[derive(Clone, Copy, PartialEq, Eq, Structural, Debug)]
pub enum Progress {
    /// The run advanced one stage; ask for the next action.
    Continue,
    /// The run finished: the handle is cached and returned to every waiter.
    Completed(ChannelHandle),
    /// The run aborted: the slot stays empty and every waiter receives this
    /// one error.
    Failed(AcquireError),
}

/// An in-flight establishment run: its stage, the topology it provisions,
/// and — once the channel-open stage has passed — the negotiated handle.
struct Establishment {
    stage: Stage,
    topology: Topology,
    channel: Option<ChannelHandle>,
}

/// Mathematical view of an in-flight run.
#[verifier::ext_equal]
pub struct FlightModel {
    pub stage: Stage,
    pub topology: TopologyView,
    pub channel: Option<ChannelHandle>,
}

/// Mathematical view of a [`ChannelCache`].
#[verifier::ext_equal]
pub struct CacheModel {
    pub addr: BrokerAddress,
    pub slot: Option<ChannelHandle>,
    pub flight: Option<FlightModel>,
}

/// The stages at which the confirm channel is already open.
pub open spec fn stage_has_channel(stage: Stage) -> bool {
    ||| stage is DeclaringQueue
    ||| stage is DeclaringExchange
    ||| stage is BindingQueue
}

/// Well-formedness of the cache: a populated slot never coexists with an
/// in-flight run, and a run carries a channel handle exactly from the moment
/// the channel-open stage succeeded.
pub open spec fn cache_wf(c: CacheModel) -> bool {
    &&& !(c.slot is Some && c.flight is Some)
    &&& (c.flight matches Some(f) ==> (f.channel is Some <==> stage_has_channel(f.stage)))
}

/// Which events may answer which stage.
pub open spec fn event_fits(stage: Stage, event: SessionEvent) -> bool {
    match stage {
        Stage::Connecting => event is Connected || event is ConnectFailed,
        Stage::Handshaking => event is HandshakeCompleted || event is HandshakeFailed,
        Stage::OpeningChannel => event is ChannelOpened || event is ChannelOpenFailed,
        Stage::DeclaringQueue => event is QueueDeclared || event is QueueDeclareFailed,
        Stage::DeclaringExchange => event is ExchangeDeclared || event is ExchangeDeclareFailed,
        Stage::BindingQueue => event is QueueBound || event is QueueBindFailed,
    }
}

/// One acquire call, as a transition on the cache model.
pub open spec fn begin_spec(c: CacheModel, t: TopologyView) -> (CacheModel, AcquireStart) {
    match c.slot {
        Some(h) => (c, AcquireStart::Cached(h)),
        None => match c.flight {
            Some(_) => (c, AcquireStart::Joined),
            None => (
                CacheModel {
                    addr: c.addr,
                    slot: None,
                    flight: Some(
                        FlightModel { stage: Stage::Connecting, topology: t, channel: None },
                    ),
                },
                AcquireStart::Started,
            ),
        },
    }
}

/// The cache after the in-flight run advanced to `stage` with channel `ch`.
pub open spec fn advanced(c: CacheModel, f: FlightModel, stage: Stage, ch: Option<ChannelHandle>) -> CacheModel {
    CacheModel {
        addr: c.addr,
        slot: c.slot,
        flight: Some(FlightModel { stage: stage, topology: f.topology, channel: ch }),
    }
}

/// The cache after the in-flight run aborted: idle again, slot untouched
/// (and hence empty, since a run was in flight).
pub open spec fn aborted(c: CacheModel) -> CacheModel {
    CacheModel { addr: c.addr, slot: c.slot, flight: None }
}

/// One establishment event, as a transition on the cache model. For a stage
/// and event that [`event_fits`] rules out, the cache is left unchanged.
pub open spec fn step_spec(c: CacheModel, event: SessionEvent) -> (CacheModel, Progress) {
    match c.flight {
        None => (c, Progress::Continue),
        Some(f) => match (f.stage, event) {
            (Stage::Connecting, SessionEvent::Connected) => (
                advanced(c, f, Stage::Handshaking, f.channel),
                Progress::Continue,
            ),
            (Stage::Connecting, SessionEvent::ConnectFailed) => (
                aborted(c),
                Progress::Failed(AcquireError::Transport),
            ),
            (Stage::Handshaking, SessionEvent::HandshakeCompleted) => (
                advanced(c, f, Stage::OpeningChannel, f.channel),
                Progress::Continue,
            ),
            (Stage::Handshaking, SessionEvent::HandshakeFailed) => (
                aborted(c),
                Progress::Failed(AcquireError::Handshake),
            ),
            (Stage::OpeningChannel, SessionEvent::ChannelOpened(id)) => (
                advanced(c, f, Stage::DeclaringQueue, Some(ChannelHandle { id })),
                Progress::Continue,
            ),
            (Stage::OpeningChannel, SessionEvent::ChannelOpenFailed) => (
                aborted(c),
                Progress::Failed(AcquireError::Channel),
            ),
            (Stage::DeclaringQueue, SessionEvent::QueueDeclared) => (
                advanced(c, f, Stage::DeclaringExchange, f.channel),
                Progress::Continue,
            ),
            (Stage::DeclaringQueue, SessionEvent::QueueDeclareFailed) => (
                aborted(c),
                Progress::Failed(AcquireError::Topology(TopologyStep::QueueDeclare)),
            ),
            (Stage::DeclaringExchange, SessionEvent::ExchangeDeclared) => (
                advanced(c, f, Stage::BindingQueue, f.channel),
                Progress::Continue,
            ),
            (Stage::DeclaringExchange, SessionEvent::ExchangeDeclareFailed) => (
                aborted(c),
                Progress::Failed(AcquireError::Topology(TopologyStep::ExchangeDeclare)),
            ),
            (Stage::BindingQueue, SessionEvent::QueueBound) => match f.channel {
                Some(h) => (
                    CacheModel { addr: c.addr, slot: Some(h), flight: None },
                    Progress::Completed(h),
                ),
                None => (c, Progress::Continue),
            },
            (Stage::BindingQueue, SessionEvent::QueueBindFailed) => (
                aborted(c),
                Progress::Failed(AcquireError::Topology(TopologyStep::QueueBind)),
            ),
            _ => (c, Progress::Continue),
        },
    }
}

/// The action owed for the current stage of the in-flight run, if any.
pub open spec fn action_for(c: CacheModel) -> Option<Action> {
    match c.flight {
        None => None,
        Some(f) => Some(
            match f.stage {
                Stage::Connecting => Action::Connect(c.addr),
                Stage::Handshaking => Action::Handshake(FRAME_MAX),
                Stage::OpeningChannel => Action::OpenConfirmChannel,
                Stage::DeclaringQueue => Action::DeclareQueue,
                Stage::DeclaringExchange => Action::DeclareExchange,
                Stage::BindingQueue => Action::BindQueue,
            },
        ),
    }
}

/// Holds at most one live channel handle for one broker endpoint and runs
/// the establishment machine that populates it. All per-request middleware
/// instances share one value of this type behind the runtime's
/// exclusive-access guard.
pub struct ChannelCache {
    addr: BrokerAddress,
    slot: Option<ChannelHandle>,
    flight: Option<Establishment>,
}

impl View for ChannelCache {
    type V = CacheModel;

    closed spec fn view(&self) -> CacheModel {
        CacheModel {
            addr: self.addr,
            slot: self.slot,
            flight: match self.flight {
                Some(e) => Some(
                    FlightModel { stage: e.stage, topology: e.topology@, channel: e.channel },
                ),
                None => None,
            },
        }
    }
}

impl ChannelCache {
    /// An empty cache for one broker endpoint: no handle, nothing in flight.
    pub fn new(addr: BrokerAddress) -> (r: ChannelCache)
        ensures
            r@ == (CacheModel { addr: addr, slot: None, flight: None }),
            cache_wf(r@),
    {
        ChannelCache { addr, slot: None, flight: None }
    }

    /// One acquire call. A cached handle is returned at once; an empty slot
    /// with nothing in flight starts the one establishment run for
    /// `topology`; while a run is in flight every further caller joins it
    /// instead of starting another.
    pub fn acquire_begin(&mut self, topology: Topology) -> (r: AcquireStart)
        requires
            cache_wf(old(self)@),
        ensures
            cache_wf(final(self)@),
            (final(self)@, r) == begin_spec(old(self)@, topology@),
            old(self)@.slot matches Some(h) ==> r == AcquireStart::Cached(h) && final(self)@
                == old(self)@,
            old(self)@.slot is None && old(self)@.flight is Some ==> r == AcquireStart::Joined
                && final(self)@ == old(self)@,
            old(self)@.slot is None && old(self)@.flight is None ==> r == AcquireStart::Started
                && final(self)@.flight == Some(
                FlightModel { stage: Stage::Connecting, topology: topology@, channel: None },
            ) && final(self)@.slot is None && final(self)@.addr == old(self)@.addr,
    {
        match self.slot {
            Some(h) => AcquireStart::Cached(h),
            None => {
                if self.flight.is_some() {
                    AcquireStart::Joined
                } else {
                    self.flight = Some(
                        Establishment { stage: Stage::Connecting, topology, channel: None },
                    );
                    AcquireStart::Started
                }
            },
        }
    }

    /// The suspending operation the runtime must perform next, if an
    /// establishment run is in flight.
    pub fn next_action(&self) -> (r: Option<Action>)
        ensures
            r == action_for(self@),
    {
        match &self.flight {
            None => None,
            Some(e) => Some(
                match e.stage {
                    Stage::Connecting => Action::Connect(self.addr),
                    Stage::Handshaking => Action::Handshake(FRAME_MAX),
                    Stage::OpeningChannel => Action::OpenConfirmChannel,
                    Stage::DeclaringQueue => Action::DeclareQueue,
                    Stage::DeclaringExchange => Action::DeclareExchange,
                    Stage::BindingQueue => Action::BindQueue,
                },
            ),
        }
    }

    /// The topology the in-flight run provisions; the runtime reads the
    /// queue, exchange and routing-key names from it when it performs the
    /// declare and bind actions.
    pub fn current_topology(&self) -> (r: Option<&Topology>)
        ensures
            match r {
                Some(t) => self@.flight matches Some(f) && t@ == f.topology,
                None => self@.flight is None,
            },
    {
        match &self.flight {
            Some(e) => Some(&e.topology),
            None => None,
        }
    }

    /// Feed back the outcome of the action the current stage owed. The run
    /// either advances, completes — caching the handle every waiter then
    /// receives — or aborts, leaving the slot empty so a later acquire may
    /// retry.
    pub fn on_event(&mut self, event: SessionEvent) -> (r: Progress)
        requires
            cache_wf(old(self)@),
            old(self)@.flight matches Some(f) && event_fits(f.stage, event),
        ensures
            cache_wf(final(self)@),
            (final(self)@, r) == step_spec(old(self)@, event),
            final(self)@.addr == old(self)@.addr,
            r matches Progress::Failed(_) ==> final(self)@.slot is None && final(self)@.flight
                is None,
            r matches Progress::Completed(h) ==> final(self)@.slot == Some(h) && final(self)@.flight
                is None,
            r is Continue ==> final(self)@.slot == old(self)@.slot && final(self)@.flight is Some,
    {
        let est = self.flight.take();
        match est {
            None => {
                proof {
                    assert(false);
                }
                Progress::Continue
            },
            Some(mut e) => match (e.stage, event) {
                (Stage::Connecting, SessionEvent::Connected) => {
                    e.stage = Stage::Handshaking;
                    self.flight = Some(e);
                    Progress::Continue
                },
                (Stage::Connecting, SessionEvent::ConnectFailed) => Progress::Failed(
                    AcquireError::Transport,
                ),
                (Stage::Handshaking, SessionEvent::HandshakeCompleted) => {
                    e.stage = Stage::OpeningChannel;
                    self.flight = Some(e);
                    Progress::Continue
                },
                (Stage::Handshaking, SessionEvent::HandshakeFailed) => Progress::Failed(
                    AcquireError::Handshake,
                ),
                (Stage::OpeningChannel, SessionEvent::ChannelOpened(id)) => {
                    e.stage = Stage::DeclaringQueue;
                    e.channel = Some(ChannelHandle { id });
                    self.flight = Some(e);
                    Progress::Continue
                },
                (Stage::OpeningChannel, SessionEvent::ChannelOpenFailed) => Progress::Failed(
                    AcquireError::Channel,
                ),
                (Stage::DeclaringQueue, SessionEvent::QueueDeclared) => {
                    e.stage = Stage::DeclaringExchange;
                    self.flight = Some(e);
                    Progress::Continue
                },
                (Stage::DeclaringQueue, SessionEvent::QueueDeclareFailed) => Progress::Failed(
                    AcquireError::Topology(TopologyStep::QueueDeclare),
                ),
                (Stage::DeclaringExchange, SessionEvent::ExchangeDeclared) => {
                    e.stage = Stage::BindingQueue;
                    self.flight = Some(e);
                    Progress::Continue
                },
                (Stage::DeclaringExchange, SessionEvent::ExchangeDeclareFailed) => Progress::Failed(
                    AcquireError::Topology(TopologyStep::ExchangeDeclare),
                ),
                (Stage::BindingQueue, SessionEvent::QueueBound) => match e.channel {
                    Some(h) => {
                        self.slot = Some(h);
                        Progress::Completed(h)
                    },
                    None => {
                        proof {
                            assert(false);
                        }
                        Progress::Continue
                    },
                },
                (Stage::BindingQueue, SessionEvent::QueueBindFailed) => Progress::Failed(
                    AcquireError::Topology(TopologyStep::QueueBind),
                ),
                _ => {
                    proof {
                        assert(false);
                    }
                    Progress::Continue
                },
            },
        }
    }

    /// Settle one confirm-mode publish on the cached channel `on`. The
    /// result is `Acknowledged` exactly when the broker confirmed
    /// positively; a channel known closed discards the cached handle, so the
    /// next acquire re-establishes; a bare transport failure keeps it.
    pub fn publish_outcome(&mut self, on: ChannelHandle, event: ConfirmEvent) -> (r: Result<
        ConfirmationResult,
        PublishError,
    >)
        requires
            cache_wf(old(self)@),
            old(self)@.slot == Some(on),
        ensures
            cache_wf(final(self)@),
            final(self)@.addr == old(self)@.addr,
            (r == Ok::<ConfirmationResult, PublishError>(ConfirmationResult::Acknowledged)) <==> (
            event is Ack),
            event is Ack ==> final(self)@ == old(self)@,
            event is Nack ==> r == Ok::<ConfirmationResult, PublishError>(
                ConfirmationResult::NotAcknowledged,
            ) && final(self)@ == old(self)@,
            event is ChannelClosed ==> r == Err::<ConfirmationResult, PublishError>(
                PublishError::ChannelClosed,
            ) && final(self)@ == (CacheModel { addr: old(self)@.addr, slot: None, flight: None }),
            event is TransportLost ==> r == Err::<ConfirmationResult, PublishError>(
                PublishError::TransportLost,
            ) && final(self)@ == old(self)@,
    {
        match event {
            ConfirmEvent::Ack => Ok(ConfirmationResult::Acknowledged),
            ConfirmEvent::Nack => Ok(ConfirmationResult::NotAcknowledged),
            ConfirmEvent::ChannelClosed => {
                self.slot = None;
                Err(PublishError::ChannelClosed)
            },
            ConfirmEvent::TransportLost => Err(PublishError::TransportLost),
        }
    }

    /// Orderly shutdown: give the cached handle up, so the runtime can close
    /// the broker channel. The slot is empty afterwards.
    pub fn release_channel(&mut self) -> (r: Option<ChannelHandle>)
        requires
            cache_wf(old(self)@),
        ensures
            cache_wf(final(self)@),
            r == old(self)@.slot,
            final(self)@ == (CacheModel {
                addr: old(self)@.addr,
                slot: None,
                flight: old(self)@.flight,
            }),
    {
        self.slot.take()
    }

    /// The handle currently cached, if any.
    pub fn cached_channel(&self) -> (r: Option<ChannelHandle>)
        ensures
            r == self@.slot,
    {
        self.slot
    }

    /// Whether an establishment run is in flight.
    pub fn establishment_in_flight(&self) -> (r: bool)
        ensures
            r == (self@.flight is Some),
    {
        self.flight.is_some()
    }

    /// The broker endpoint this cache connects to.
    pub fn address(&self) -> (r: BrokerAddress)
        ensures
            r == self@.addr,
    {
        self.addr
    }
}

/// The cache and the per-caller answers after a run of consecutive acquire
/// calls — the order in which concurrent callers win the exclusive-access
/// guard — with no establishment event in between.
pub open spec fn run_begins(c: CacheModel, ts: Seq<TopologyView>) -> (CacheModel, Seq<AcquireStart>)
    decreases ts.len(),
{
    if ts.len() == 0 {
        (c, Seq::empty())
    } else {
        let (c1, r1) = begin_spec(c, ts[0]);
        let (c2, rs) = run_begins(c1, ts.skip(1));
        (c2, seq![r1] + rs)
    }
}

/// While a run is in flight, every acquire call joins it: none starts a
/// second run, and the cache is unchanged.
proof fn lemma_begins_while_in_flight(c: CacheModel, ts: Seq<TopologyView>)
    requires
        c.slot is None,
        c.flight is Some,
    ensures
        run_begins(c, ts).0 == c,
        run_begins(c, ts).1.len() == ts.len(),
        forall|i: int| 0 <= i < ts.len() ==> run_begins(c, ts).1[i] == AcquireStart::Joined,
    decreases ts.len(),
{
    if ts.len() > 0 {
        lemma_begins_while_in_flight(c, ts.skip(1));
        let rs = run_begins(c, ts).1;
        assert forall|i: int| 0 <= i < ts.len() implies rs[i] == AcquireStart::Joined by {
            if i > 0 {
                assert(rs[i] == run_begins(c, ts.skip(1)).1[i - 1]);
            }
        }
    }
}

/// Single-flight law: however many acquire calls race on an empty slot,
/// exactly the first one to win the guard starts an establishment run, and
/// every other call joins that one run — so exactly one run executes, and
/// its one completion or one error is what every caller receives.
pub proof fn lemma_single_flight(c: CacheModel, ts: Seq<TopologyView>)
    requires
        cache_wf(c),
        c.slot is None,
        c.flight is None,
        ts.len() >= 1,
    ensures
        run_begins(c, ts).1.len() == ts.len(),
        run_begins(c, ts).1[0] == AcquireStart::Started,
        forall|i: int| 1 <= i < ts.len() ==> run_begins(c, ts).1[i] == AcquireStart::Joined,
        run_begins(c, ts).0 == begin_spec(c, ts[0]).0,
{
    let (c1, r1) = begin_spec(c, ts[0]);
    lemma_begins_while_in_flight(c1, ts.skip(1));
    let rs = run_begins(c, ts).1;
    assert forall|i: int| 1 <= i < ts.len() implies rs[i] == AcquireStart::Joined by {
        assert(rs[i] == run_begins(c1, ts.skip(1)).1[i - 1]);
    }
}

/// Fast-path law: once a handle is cached, every later acquire call — for
/// whatever topology — receives that same handle at once, the cache never
/// changes, and no action (hence no network suspension) is owed.
pub proof fn lemma_cached_serves_every_caller(c: CacheModel, h: ChannelHandle, ts: Seq<TopologyView>)
    requires
        cache_wf(c),
        c.slot == Some(h),
    ensures
        run_begins(c, ts).0 == c,
        run_begins(c, ts).1.len() == ts.len(),
        forall|i: int| 0 <= i < ts.len() ==> run_begins(c, ts).1[i] == AcquireStart::Cached(h),
        action_for(c) is None,
    decreases ts.len(),
{
    if ts.len() > 0 {
        lemma_cached_serves_every_caller(c, h, ts.skip(1));
        let rs = run_begins(c, ts).1;
        assert forall|i: int| 0 <= i < ts.len() implies rs[i] == AcquireStart::Cached(h) by {
            if i > 0 {
                assert(rs[i] == run_begins(c, ts.skip(1)).1[i - 1]);
            }
        }
    }
}

/// The events of one successful establishment run, in the order the stages
/// owe them; `id` is the channel number the broker negotiates.
pub open spec fn establishment_events(id: u16) -> Seq<SessionEvent> {
    seq![
        SessionEvent::Connected,
        SessionEvent::HandshakeCompleted,
        SessionEvent::ChannelOpened(id),
        SessionEvent::QueueDeclared,
        SessionEvent::ExchangeDeclared,
        SessionEvent::QueueBound,
    ]
}

/// Completion law: from an idle, empty cache, one acquire call followed by
/// the success events yields `Completed` with the negotiated handle, caches
/// exactly that handle, and every subsequent acquire call is answered from
/// the cache with it.
pub proof fn lemma_establishment_completes(c: CacheModel, t: TopologyView, id: u16)
    requires
        cache_wf(c),
        c.slot is None,
        c.flight is None,
    ensures
        ({
            let c0 = begin_spec(c, t).0;
            let c1 = step_spec(c0, SessionEvent::Connected).0;
            let c2 = step_spec(c1, SessionEvent::HandshakeCompleted).0;
            let c3 = step_spec(c2, SessionEvent::ChannelOpened(id)).0;
            let c4 = step_spec(c3, SessionEvent::QueueDeclared).0;
            let c5 = step_spec(c4, SessionEvent::ExchangeDeclared).0;
            let (c6, p) = step_spec(c5, SessionEvent::QueueBound);
            &&& p == Progress::Completed(ChannelHandle { id })
            &&& c6.slot == Some(ChannelHandle { id })
            &&& c6.flight is None
            &&& c6.addr == c.addr
            &&& begin_spec(c6, t).1 == AcquireStart::Cached(ChannelHandle { id })
        }),
{
}

/// Ordering law: within one establishment run the owed actions follow the
/// protocol order — connect, handshake, channel open, declare queue,
/// declare exchange, bind — and the topology under establishment never
/// changes along the way.
pub proof fn lemma_actions_in_protocol_order(c: CacheModel, t: TopologyView, id: u16)
    requires
        cache_wf(c),
        c.slot is None,
        c.flight is None,
    ensures
        ({
            let c0 = begin_spec(c, t).0;
            let c1 = step_spec(c0, SessionEvent::Connected).0;
            let c2 = step_spec(c1, SessionEvent::HandshakeCompleted).0;
            let c3 = step_spec(c2, SessionEvent::ChannelOpened(id)).0;
            let c4 = step_spec(c3, SessionEvent::QueueDeclared).0;
            let c5 = step_spec(c4, SessionEvent::ExchangeDeclared).0;
            &&& action_for(c0) == Some(Action::Connect(c.addr))
            &&& action_for(c1) == Some(Action::Handshake(FRAME_MAX))
            &&& action_for(c2) == Some(Action::OpenConfirmChannel)
            &&& action_for(c3) == Some(Action::DeclareQueue)
            &&& action_for(c4) == Some(Action::DeclareExchange)
            &&& action_for(c5) == Some(Action::BindQueue)
            &&& c5.flight == Some(
                FlightModel {
                    stage: Stage::BindingQueue,
                    topology: t,
                    channel: Some(ChannelHandle { id }),
                },
            )
        }),
{
}

/// Retry law: whenever an establishment step fails, the slot is empty and
/// the machine idle afterwards, so the very next acquire call starts a
/// fresh run — a failed attempt never wedges the cache.
pub proof fn lemma_failure_allows_retry(c: CacheModel, event: SessionEvent, t: TopologyView)
    requires
        cache_wf(c),
        c.flight matches Some(f) && event_fits(f.stage, event),
        step_spec(c, event).1 matches Progress::Failed(_),
    ensures
        step_spec(c, event).0.slot is None,
        step_spec(c, event).0.flight is None,
        begin_spec(step_spec(c, event).0, t).1 == AcquireStart::Started,
{
}

} // verus!
