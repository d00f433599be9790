use worumtop::registry::{Broadcast, Registry, Subscriber};

const D1: Subscriber = Subscriber(101);
const D2: Subscriber = Subscriber(-202);

#[test]
fn a_new_registry_is_empty() {
    let registry = Registry::new();
    assert_eq!(registry.len(), 0);
    assert_eq!(registry.snapshot(), vec![]);
}

#[test]
fn destinations_are_kept_in_the_order_of_registration() {
    let mut registry = Registry::new();
    registry.add(D2);
    registry.add(D1);
    registry.add(Subscriber(3));
    assert_eq!(registry.len(), 3);
    assert_eq!(registry.snapshot(), vec![D2, D1, Subscriber(3)]);
}

#[test]
fn a_destination_added_twice_is_held_twice() {
    let mut registry = Registry::new();
    registry.add(D1);
    registry.add(D1);
    assert_eq!(registry.snapshot(), vec![D1, D1]);
}

#[test]
fn a_failed_delivery_does_not_stop_the_broadcast() {
    let mut registry = Registry::new();
    registry.add(D1);
    registry.add(D2);
    let broadcast = Broadcast::new(&registry, "body".to_string());
    assert_eq!(broadcast.next(), Some(D1));
    assert_eq!(broadcast.body(), "body");
    let broadcast = broadcast.record(false);
    assert_eq!(broadcast.next(), Some(D2));
    assert_eq!(broadcast.body(), "body");
    assert!(!broadcast.is_finished());
    let broadcast = broadcast.record(true);
    assert_eq!(broadcast.next(), None);
    assert!(broadcast.is_finished());
    assert_eq!(broadcast.attempted(), 2);
    assert_eq!(broadcast.failures(), vec![D1]);
}

#[test]
fn every_destination_is_attempted_whatever_the_outcomes() {
    let destinations: Vec<Subscriber> = (0..6).map(Subscriber).collect();
    for pattern in 0u32..64 {
        let mut registry = Registry::new();
        for d in &destinations {
            registry.add(*d);
        }
        let mut broadcast = Broadcast::new(&registry, "daily".to_string());
        let mut attempted = Vec::new();
        let mut failed = Vec::new();
        while let Some(destination) = broadcast.next() {
            assert_eq!(broadcast.body(), "daily");
            let delivered = pattern & (1 << attempted.len()) != 0;
            if !delivered {
                failed.push(destination);
            }
            attempted.push(destination);
            broadcast = broadcast.record(delivered);
        }
        assert_eq!(attempted, destinations);
        assert_eq!(broadcast.failures(), failed);
        assert_eq!(broadcast.attempted(), 6);
    }
}

#[test]
fn a_broadcast_to_nobody_is_finished_at_once() {
    let broadcast = Broadcast::new(&Registry::new(), "body".to_string());
    assert_eq!(broadcast.next(), None);
    assert!(broadcast.is_finished());
    assert_eq!(broadcast.failures(), vec![]);
}

#[test]
fn a_report_without_delivery_changes_nothing() {
    let mut registry = Registry::new();
    registry.add(D1);
    let broadcast = Broadcast::new(&registry, "body".to_string()).record(true).record(false).record(false);
    assert_eq!(broadcast.attempted(), 1);
    assert_eq!(broadcast.failures(), vec![]);
    assert_eq!(broadcast.next(), None);
}

#[test]
fn a_broadcast_goes_to_the_destinations_registered_when_it_began() {
    let mut registry = Registry::new();
    registry.add(D1);
    let broadcast = Broadcast::new(&registry, "body".to_string());
    registry.add(D2);
    let broadcast = broadcast.record(true);
    assert_eq!(broadcast.next(), None);
    assert_eq!(registry.snapshot(), vec![D1, D2]);
}
