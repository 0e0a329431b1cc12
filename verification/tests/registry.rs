use posterbot_constructor::registry::WorkerRegistry;

#[test]
fn a_bot_runs_once() {
    let mut r: WorkerRegistry<&str> = WorkerRegistry::new();
    assert!(!r.is_running(1));
    assert_eq!(r.add(1, "first"), None);
    assert!(r.is_running(1));
    assert_eq!(r.add(1, "second"), Some("second"));
    assert_eq!(r.add(2, "other"), None);
    assert_eq!(r.remove(1), Some("first"));
    assert!(!r.is_running(1));
    assert_eq!(r.remove(1), None);
    assert!(r.is_running(2));
    assert_eq!(r.add(1, "again"), None);
    assert_eq!(r.remove(1), Some("again"));
}
