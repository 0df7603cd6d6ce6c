use gotham_middleware_lapin::broker::BrokerAddress;
use gotham_middleware_lapin::cache::{AcquireStart, ChannelCache};
use gotham_middleware_lapin::middleware::LapinMiddleware;

fn addr() -> BrokerAddress {
    BrokerAddress { octet0: 10, octet1: 1, octet2: 2, octet3: 3, port: 5672 }
}

#[test]
fn every_per_request_instance_shares_the_endpoint() {
    let mw = LapinMiddleware::new(addr());
    assert_eq!(mw.addr, addr());
    let per_request = mw.new_middleware();
    assert_eq!(per_request.addr, addr());
    let another = per_request.new_middleware();
    assert_eq!(another.addr, addr());
}

#[test]
fn attach_hands_the_request_the_shared_endpoint() {
    let mw = LapinMiddleware::new(addr());
    let channel_state = mw.attach();
    assert_eq!(channel_state.addr, addr());
    let again = mw.attach();
    assert_eq!(again.addr, channel_state.addr);
}

#[test]
fn an_opened_cache_starts_empty_and_idle() {
    let mw = LapinMiddleware::new(addr());
    let channel_state = mw.attach();
    let mut cache: ChannelCache = channel_state.open_cache();
    assert_eq!(cache.address(), addr());
    assert_eq!(cache.cached_channel(), None);
    assert!(!cache.establishment_in_flight());
    assert_eq!(cache.next_action(), None);
    // the first acquire on the fresh cache starts the one establishment run
    let t = gotham_middleware_lapin::broker::Topology {
        queue: "q".to_string(),
        exchange: "x".to_string(),
        routing_key: "k".to_string(),
    };
    assert_eq!(cache.acquire_begin(t), AcquireStart::Started);
}
