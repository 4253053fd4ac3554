use showerrooms::events::Events;

#[test]
fn test_new() {
    let events = Events::new();
    assert_eq!(events.client_count(), 0);
    assert_eq!(events.last_id(), 0);
}

#[test]
fn test_subscribe() {
    let mut events = Events::new();
    let _rx = events.subscribe();
    assert_eq!(events.client_count(), 1);
    assert_eq!(events.last_id(), 1);
}

#[test]
fn test_notify() {
    let mut events = Events::new();
    let mut rx = events.subscribe();
    events.notify("test".to_string());
    assert_eq!(rx.try_recv().unwrap(), "test");
}

#[test]
fn every_subscriber_gets_its_own_copy_in_order() {
    let mut events = Events::new();
    let mut rx_a = events.subscribe();
    let mut rx_b = events.subscribe();
    events.notify("x".to_string());
    events.notify("y".to_string());
    assert_eq!(rx_a.try_recv().unwrap(), "x");
    assert_eq!(rx_a.try_recv().unwrap(), "y");
    assert!(rx_a.try_recv().is_err()); // exactly once each
    assert_eq!(rx_b.try_recv().unwrap(), "x");
    assert_eq!(rx_b.try_recv().unwrap(), "y");
    assert!(rx_b.try_recv().is_err());
}

#[test]
fn dead_subscriber_is_pruned_silently() {
    let mut events = Events::new();
    let rx_a = events.subscribe();
    let mut rx_b = events.subscribe();
    assert_eq!(events.client_count(), 2);
    drop(rx_a);
    events.notify("x".to_string());
    assert_eq!(events.client_count(), 1);
    events.notify("y".to_string());
    assert_eq!(events.client_count(), 1);
    assert_eq!(rx_b.try_recv().unwrap(), "x");
    assert_eq!(rx_b.try_recv().unwrap(), "y");
}

#[test]
fn late_subscriber_misses_earlier_messages() {
    let mut events = Events::new();
    let mut rx_a = events.subscribe();
    events.notify("early".to_string());
    let mut rx_b = events.subscribe();
    events.notify("late".to_string());
    assert_eq!(rx_a.try_recv().unwrap(), "early");
    assert_eq!(rx_a.try_recv().unwrap(), "late");
    assert_eq!(rx_b.try_recv().unwrap(), "late");
    assert!(rx_b.try_recv().is_err());
}

#[test]
fn subscriber_ids_increase_monotonically() {
    let mut events = Events::new();
    let _rx_a = events.subscribe();
    let _rx_b = events.subscribe();
    let _rx_c = events.subscribe();
    assert_eq!(events.client_count(), 3);
    assert_eq!(events.last_id(), 3);
}
