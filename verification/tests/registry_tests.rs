use ecmui::registry::WatcherRegistry;

#[test]
fn register_and_cancel_round_trip() {
    let mut r: WatcherRegistry<&'static str> = WatcherRegistry::new();
    assert_eq!(r.active_count(), 0);
    assert_eq!(r.register(1, "task-1"), None);
    assert_eq!(r.register(2, "task-2"), None);
    assert_eq!(r.active_count(), 2);
    assert!(r.contains(1));
    assert!(r.contains(2));
    assert_eq!(r.cancel(1), Some("task-1"));
    assert!(!r.contains(1));
    assert_eq!(r.active_count(), 1);
}

#[test]
fn register_same_id_replaces_the_entry() {
    let mut r: WatcherRegistry<u32> = WatcherRegistry::new();
    assert_eq!(r.register(7, 100), None);
    assert_eq!(r.register(7, 200), Some(100));
    assert_eq!(r.active_count(), 1);
    assert_eq!(r.cancel(7), Some(200));
    assert_eq!(r.active_count(), 0);
}

#[test]
fn cancelling_twice_or_unknown_never_errors_and_spares_others() {
    let mut r: WatcherRegistry<u32> = WatcherRegistry::new();
    r.register(1, 11);
    r.register(2, 22);
    // stopping an id that was never registered: no error, nothing changes
    assert_eq!(r.cancel(99), None);
    assert_eq!(r.active_count(), 2);
    // stopping the same id twice: second stop is a no-op
    assert_eq!(r.cancel(1), Some(11));
    assert_eq!(r.cancel(1), None);
    // the other watcher is untouched
    assert!(r.contains(2));
    assert_eq!(r.cancel(2), Some(22));
}

#[test]
fn cancel_all_empties_the_registry_and_returns_every_handle() {
    let mut r: WatcherRegistry<u32> = WatcherRegistry::new();
    // none active
    assert_eq!(r.cancel_all(), Vec::<u32>::new());
    // one active
    r.register(1, 11);
    assert_eq!(r.cancel_all(), vec![11]);
    assert_eq!(r.active_count(), 0);
    // many active
    r.register(1, 11);
    r.register(2, 22);
    r.register(3, 33);
    let handles = r.cancel_all();
    assert_eq!(handles, vec![11, 22, 33]);
    assert_eq!(r.active_count(), 0);
    assert!(!r.contains(1));
    assert!(!r.contains(2));
    assert!(!r.contains(3));
}
