use gotham_middleware_lapin::broker::{AcquireError, BrokerAddress, ChannelHandle, Topology, TopologyStep, FRAME_MAX};
use gotham_middleware_lapin::cache::{AcquireStart, Action, ChannelCache, Progress, SessionEvent};

fn local_addr() -> BrokerAddress {
    BrokerAddress { octet0: 127, octet1: 0, octet2: 0, octet3: 1, port: 5672 }
}

fn hello_topology() -> Topology {
    Topology {
        queue: "hello_queue".to_string(),
        exchange: "hello_ex".to_string(),
        routing_key: "hello_queue".to_string(),
    }
}

fn drive_success(cache: &mut ChannelCache, id: u16) -> ChannelHandle {
    assert_eq!(cache.on_event(SessionEvent::Connected), Progress::Continue);
    assert_eq!(cache.on_event(SessionEvent::HandshakeCompleted), Progress::Continue);
    assert_eq!(cache.on_event(SessionEvent::ChannelOpened(id)), Progress::Continue);
    assert_eq!(cache.on_event(SessionEvent::QueueDeclared), Progress::Continue);
    assert_eq!(cache.on_event(SessionEvent::ExchangeDeclared), Progress::Continue);
    match cache.on_event(SessionEvent::QueueBound) {
        Progress::Completed(h) => h,
        other => panic!("establishment did not complete: {:?}", other),
    }
}

#[test]
fn first_acquire_starts_one_run_and_later_callers_join() {
    let mut cache = ChannelCache::new(local_addr());
    assert_eq!(cache.acquire_begin(hello_topology()), AcquireStart::Started);
    // concurrent callers that find the run in flight all join it
    assert_eq!(cache.acquire_begin(hello_topology()), AcquireStart::Joined);
    assert_eq!(cache.acquire_begin(hello_topology()), AcquireStart::Joined);
    let h = drive_success(&mut cache, 1);
    // every caller then receives the same cached handle
    assert_eq!(cache.acquire_begin(hello_topology()), AcquireStart::Cached(h));
    assert_eq!(cache.acquire_begin(hello_topology()), AcquireStart::Cached(h));
}

#[test]
fn cached_handle_is_served_without_any_action() {
    let mut cache = ChannelCache::new(local_addr());
    assert_eq!(cache.acquire_begin(hello_topology()), AcquireStart::Started);
    let h = drive_success(&mut cache, 3);
    assert_eq!(cache.acquire_begin(hello_topology()), AcquireStart::Cached(h));
    // fast path: nothing in flight, so no suspending action is owed
    assert_eq!(cache.next_action(), None);
    assert!(!cache.establishment_in_flight());
    assert_eq!(cache.cached_channel(), Some(h));
}

#[test]
fn establishment_actions_come_in_protocol_order() {
    let mut cache = ChannelCache::new(local_addr());
    assert_eq!(cache.next_action(), None);
    assert_eq!(cache.acquire_begin(hello_topology()), AcquireStart::Started);
    assert_eq!(cache.next_action(), Some(Action::Connect(local_addr())));
    cache.on_event(SessionEvent::Connected);
    assert_eq!(cache.next_action(), Some(Action::Handshake(FRAME_MAX)));
    assert_eq!(FRAME_MAX, 65535);
    cache.on_event(SessionEvent::HandshakeCompleted);
    assert_eq!(cache.next_action(), Some(Action::OpenConfirmChannel));
    cache.on_event(SessionEvent::ChannelOpened(9));
    assert_eq!(cache.next_action(), Some(Action::DeclareQueue));
    let t = cache.current_topology().expect("a run is in flight");
    assert_eq!(t.queue, "hello_queue");
    assert_eq!(t.exchange, "hello_ex");
    assert_eq!(t.routing_key, "hello_queue");
    cache.on_event(SessionEvent::QueueDeclared);
    assert_eq!(cache.next_action(), Some(Action::DeclareExchange));
    cache.on_event(SessionEvent::ExchangeDeclared);
    assert_eq!(cache.next_action(), Some(Action::BindQueue));
    assert_eq!(cache.on_event(SessionEvent::QueueBound), Progress::Completed(ChannelHandle { id: 9 }));
    assert_eq!(cache.next_action(), None);
}

#[test]
fn unreachable_address_leaves_slot_empty_and_retry_succeeds() {
    let mut cache = ChannelCache::new(local_addr());
    assert_eq!(cache.acquire_begin(hello_topology()), AcquireStart::Started);
    // the transport connect is refused
    assert_eq!(
        cache.on_event(SessionEvent::ConnectFailed),
        Progress::Failed(AcquireError::Transport)
    );
    // the slot remains empty, the machine idle
    assert_eq!(cache.cached_channel(), None);
    assert!(!cache.establishment_in_flight());
    // a later call starts afresh and succeeds
    assert_eq!(cache.acquire_begin(hello_topology()), AcquireStart::Started);
    let h = drive_success(&mut cache, 1);
    assert_eq!(cache.cached_channel(), Some(h));
}

#[test]
fn each_failing_stage_reports_its_own_error() {
    let cases: [(&[SessionEvent], SessionEvent, AcquireError); 6] = [
        (&[], SessionEvent::ConnectFailed, AcquireError::Transport),
        (&[SessionEvent::Connected], SessionEvent::HandshakeFailed, AcquireError::Handshake),
        (
            &[SessionEvent::Connected, SessionEvent::HandshakeCompleted],
            SessionEvent::ChannelOpenFailed,
            AcquireError::Channel,
        ),
        (
            &[SessionEvent::Connected, SessionEvent::HandshakeCompleted, SessionEvent::ChannelOpened(4)],
            SessionEvent::QueueDeclareFailed,
            AcquireError::Topology(TopologyStep::QueueDeclare),
        ),
        (
            &[
                SessionEvent::Connected,
                SessionEvent::HandshakeCompleted,
                SessionEvent::ChannelOpened(4),
                SessionEvent::QueueDeclared,
            ],
            SessionEvent::ExchangeDeclareFailed,
            AcquireError::Topology(TopologyStep::ExchangeDeclare),
        ),
        (
            &[
                SessionEvent::Connected,
                SessionEvent::HandshakeCompleted,
                SessionEvent::ChannelOpened(4),
                SessionEvent::QueueDeclared,
                SessionEvent::ExchangeDeclared,
            ],
            SessionEvent::QueueBindFailed,
            AcquireError::Topology(TopologyStep::QueueBind),
        ),
    ];
    for (prefix, failure, expected) in cases {
        let mut cache = ChannelCache::new(local_addr());
        assert_eq!(cache.acquire_begin(hello_topology()), AcquireStart::Started);
        for ev in prefix {
            assert_eq!(cache.on_event(*ev), Progress::Continue);
        }
        assert_eq!(cache.on_event(failure), Progress::Failed(expected));
        assert_eq!(cache.cached_channel(), None);
        assert!(!cache.establishment_in_flight());
    }
}

#[test]
fn provisioning_again_with_identical_parameters_succeeds_identically() {
    // the declare and bind calls are idempotent, so running the whole
    // provisioning sequence again with the same triple is a no-op success
    let mut cache = ChannelCache::new(local_addr());
    assert_eq!(cache.acquire_begin(hello_topology()), AcquireStart::Started);
    let first = drive_success(&mut cache, 5);
    assert_eq!(cache.release_channel(), Some(first));
    assert_eq!(cache.cached_channel(), None);
    assert_eq!(cache.acquire_begin(hello_topology()), AcquireStart::Started);
    let second = drive_success(&mut cache, 5);
    assert_eq!(first, second);
    assert_eq!(cache.cached_channel(), Some(second));
}

#[test]
fn release_gives_the_handle_up_for_an_orderly_close() {
    let mut cache = ChannelCache::new(local_addr());
    assert_eq!(cache.release_channel(), None);
    assert_eq!(cache.acquire_begin(hello_topology()), AcquireStart::Started);
    let h = drive_success(&mut cache, 2);
    assert_eq!(cache.release_channel(), Some(h));
    assert_eq!(cache.cached_channel(), None);
    assert_eq!(gotham_middleware_lapin::broker::CLOSE_REPLY_CODE, 200);
}
