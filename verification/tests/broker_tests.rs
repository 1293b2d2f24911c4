use keiko::broker::{EventBroker, SubscriptionPoll};
use keiko::proxy::Proxy;
use keiko::rebuild::{InstanceAddr, RebuildPhase, RebuildSupervisor};

#[test]
fn a_late_subscriber_never_sees_earlier_events() {
    let mut b = EventBroker::new();
    b.publish();
    b.publish();
    b.publish();
    let mut s = b.subscribe();
    b.publish();
    b.publish();
    assert_eq!(s.next(&b), SubscriptionPoll::Event(3));
    assert_eq!(s.next(&b), SubscriptionPoll::Event(4));
    assert_eq!(s.next(&b), SubscriptionPoll::Pending);
}

#[test]
fn two_subscribers_each_observe_the_same_events() {
    let mut b = EventBroker::new();
    let mut s1 = b.subscribe();
    let mut s2 = b.subscribe();
    b.publish();
    assert_eq!(s1.next(&b), SubscriptionPoll::Event(0));
    assert_eq!(s2.next(&b), SubscriptionPoll::Event(0));
    assert_eq!(s1.next(&b), SubscriptionPoll::Pending);
    assert_eq!(s2.next(&b), SubscriptionPoll::Pending);
}

#[test]
fn the_closed_signal_comes_after_the_pending_events_drain() {
    let mut b = EventBroker::new();
    let mut s = b.subscribe();
    b.publish();
    b.close();
    assert_eq!(s.next(&b), SubscriptionPoll::Event(0));
    assert_eq!(s.next(&b), SubscriptionPoll::Closed);
    assert_eq!(s.next(&b), SubscriptionPoll::Closed);
}

#[test]
fn a_burst_of_rebuild_events_collapses_safely() {
    // Five events published in rapid succession cause between one and
    // five rebuilds, and the proxy's endpoint is never left unset.
    let mut b = EventBroker::new();
    let mut s = b.subscribe();
    let mut sup = RebuildSupervisor::new();
    let mut proxy = Proxy::new(String::from("127.0.0.1"), 5050);

    // Initial instance comes up and is published.
    let released = sup.instance_started(
        InstanceAddr { host: String::from("127.0.0.1"), port: 40001 },
        &mut proxy,
    );
    assert!(released.is_none());

    for _ in 0..5 {
        b.publish();
    }

    let mut rebuilds: u64 = 0;
    let mut next_port: u16 = 40002;
    loop {
        match s.next(&b) {
            SubscriptionPoll::Event(_) => {
                // Collapse whatever queued behind this event into the
                // one rebuild that follows.
                s.drain_pending(&b);
                sup.rebuild_requested();
                let old = sup.instance_started(
                    InstanceAddr { host: String::from("127.0.0.1"), port: next_port },
                    &mut proxy,
                );
                assert!(old.is_some());
                next_port += 1;
                rebuilds += 1;
            }
            SubscriptionPoll::Pending => break,
            SubscriptionPoll::Closed => break,
        }
    }

    assert!(rebuilds >= 1 && rebuilds <= 5);
    let endpoint = proxy.graphql.as_ref().expect("endpoint stays set");
    assert_eq!(endpoint.generation, 1 + rebuilds);
    assert_eq!(sup.phase, RebuildPhase::Serving);
}
