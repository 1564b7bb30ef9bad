use switchelo::daemon::{Daemon, MAX_FAILURES};

fn register(daemon: &mut Daemon, name: &str, url: &str, description: &str) -> Result<u64, String> {
    daemon.register(name.to_string(), url.to_string(), description.to_string())
}

#[test]
fn evicts_only_after_consecutive_failures() {
    let mut daemon = Daemon::new();
    let id = daemon
        .register("api".into(), "http://127.0.0.1:1".into(), String::new())
        .unwrap();

    // Below the threshold the service survives.
    for _ in 0..MAX_FAILURES - 1 {
        assert!(!daemon.record_failure(id));
        assert!(daemon.get(id).is_some());
    }

    // The Nth consecutive failure evicts it.
    assert!(daemon.record_failure(id));
    assert!(daemon.get(id).is_none());
}

#[test]
fn rejects_non_http_schemes_but_accepts_https() {
    let mut daemon = Daemon::new();
    assert!(
        daemon
            .register("api".into(), "ftp://host/x".into(), String::new())
            .is_err()
    );
    assert!(
        daemon
            .register("api".into(), "https://host".into(), String::new())
            .is_ok()
    );
}

#[test]
fn success_resets_the_failure_streak() {
    let mut daemon = Daemon::new();
    let id = daemon
        .register("api".into(), "http://127.0.0.1:1".into(), String::new())
        .unwrap();

    for _ in 0..MAX_FAILURES - 1 {
        assert!(!daemon.record_failure(id));
    }
    // A success clears the streak, so the next failures start counting over.
    daemon.record_success(id);
    for _ in 0..MAX_FAILURES - 1 {
        assert!(!daemon.record_failure(id));
        assert!(daemon.get(id).is_some());
    }
}

#[test]
fn the_limit_is_three() {
    assert_eq!(MAX_FAILURES, 3);
    let mut daemon = Daemon::default();
    let id = register(&mut daemon, "api", "http://h", "").unwrap();
    assert!(!daemon.record_failure(id));
    assert_eq!(daemon.get(id).unwrap().failures, 1);
    assert!(!daemon.record_failure(id));
    assert_eq!(daemon.get(id).unwrap().failures, 2);
    assert!(daemon.record_failure(id));
    assert!(!daemon.record_failure(id));
}

#[test]
fn ids_count_up_from_zero() {
    let mut daemon = Daemon::new();
    assert_eq!(register(&mut daemon, "api", "http://127.0.0.1:8081", "one"), Ok(0));
    assert_eq!(register(&mut daemon, "api", "http://127.0.0.1:8082", "two"), Ok(1));
    assert_eq!(register(&mut daemon, "web", "https://host", ""), Ok(2));
}

#[test]
fn registration_is_idempotent_by_url() {
    let mut daemon = Daemon::new();
    let id = register(&mut daemon, "api", "http://host:8081", "old").unwrap();
    daemon.record_failure(id);
    daemon.record_failure(id);
    assert_eq!(register(&mut daemon, "api2", "http://host:8081/", "new"), Ok(id));
    assert_eq!(register(&mut daemon, "api2", "http://host:8081///", "new"), Ok(id));
    let s = daemon.get(id).unwrap();
    assert_eq!(s.name, "api2");
    assert_eq!(s.url, "http://host:8081");
    assert_eq!(s.description, "new");
    assert_eq!(s.failures, 0);
    assert_eq!(daemon.snapshot().len(), 1);
    // No id was used up.
    assert_eq!(register(&mut daemon, "other", "http://other", ""), Ok(1));
}

#[test]
fn refusal_names_the_trimmed_url_and_changes_nothing() {
    let mut daemon = Daemon::new();
    assert_eq!(
        register(&mut daemon, "api", "ftp://host/x//", ""),
        Err("unsupported URL scheme (expected http:// or https://): ftp://host/x".to_string())
    );
    // Without its slashes the scheme is incomplete.
    assert_eq!(
        register(&mut daemon, "api", "http://", ""),
        Err("unsupported URL scheme (expected http:// or https://): http:".to_string())
    );
    assert_eq!(
        register(&mut daemon, "api", "", ""),
        Err("unsupported URL scheme (expected http:// or https://): ".to_string())
    );
    assert!(register(&mut daemon, "api", "HTTP://host", "").is_err());
    assert!(daemon.snapshot().is_empty());
    assert_eq!(register(&mut daemon, "api", "http://h", ""), Ok(0));
}

#[test]
fn unregistered_ids_are_not_reused() {
    let mut daemon = Daemon::new();
    let id = register(&mut daemon, "api", "http://h", "").unwrap();
    assert!(daemon.unregister(id));
    assert!(!daemon.unregister(id));
    assert!(daemon.get(id).is_none());
    assert_eq!(register(&mut daemon, "api", "http://h", ""), Ok(1));
}

#[test]
fn snapshot_is_sorted_by_id() {
    let mut daemon = Daemon::new();
    for n in 0..40u64 {
        let url = format!("http://127.0.0.1:{}", 9000 + n);
        assert_eq!(register(&mut daemon, "svc", &url, "d"), Ok(n));
    }
    for n in (0..40u64).step_by(3) {
        assert!(daemon.unregister(n));
    }
    let ids: Vec<u64> = daemon.snapshot().iter().map(|(id, _)| *id).collect();
    let expected: Vec<u64> = (0..40u64).filter(|n| n % 3 != 0).collect();
    assert_eq!(ids, expected);
    for (id, s) in daemon.snapshot() {
        assert_eq!(s.url, format!("http://127.0.0.1:{}", 9000 + id));
        assert_eq!(s.url, daemon.get(id).unwrap().url);
    }
}

#[test]
fn outcomes_for_unknown_ids_are_ignored() {
    let mut daemon = Daemon::new();
    let id = register(&mut daemon, "api", "http://h", "").unwrap();
    daemon.record_success(7);
    assert!(!daemon.record_failure(7));
    assert!(!daemon.unregister(7));
    assert_eq!(daemon.snapshot().len(), 1);
    assert_eq!(daemon.get(id).unwrap().failures, 0);
}

#[test]
fn operations_leave_other_services_alone() {
    let mut daemon = Daemon::new();
    let a = register(&mut daemon, "a", "http://a", "one").unwrap();
    let b = register(&mut daemon, "b", "http://b", "two").unwrap();
    daemon.record_failure(a);
    daemon.record_failure(b);
    daemon.record_success(b);
    assert_eq!(daemon.get(a).unwrap().failures, 1);
    register(&mut daemon, "b2", "http://b/", "three").unwrap();
    daemon.unregister(b);
    let s = daemon.get(a).unwrap();
    assert_eq!((s.name.as_str(), s.url.as_str(), s.description.as_str()), ("a", "http://a", "one"));
    assert_eq!(s.failures, 1);
}

#[test]
fn deregistering_undoes_a_registration() {
    let mut daemon = Daemon::new();
    register(&mut daemon, "a", "http://a", "one").unwrap();
    let b = register(&mut daemon, "b", "http://b", "two").unwrap();
    daemon.unregister(b);
    let list = daemon.snapshot();
    assert_eq!(list.len(), 1);
    assert_eq!(list[0].0, 0);
    assert_eq!(list[0].1.url, "http://a");
}

#[test]
fn snapshots_of_one_registry_are_the_same() {
    let mut daemon = Daemon::new();
    for n in 0..20u64 {
        register(&mut daemon, "svc", &format!("http://h:{n}"), "d").unwrap();
    }
    let ids = |list: Vec<(u64, switchelo::daemon::Service)>| -> Vec<(u64, String)> {
        list.into_iter().map(|(id, s)| (id, s.url)).collect()
    };
    assert_eq!(ids(daemon.snapshot()), ids(daemon.snapshot()));
}

#[test]
fn ids_stay_retired_through_other_operations() {
    let mut daemon = Daemon::new();
    let gone = register(&mut daemon, "a", "http://a", "").unwrap();
    let kept = register(&mut daemon, "b", "http://b", "").unwrap();
    daemon.unregister(gone);
    daemon.record_failure(gone);
    daemon.record_success(gone);
    daemon.record_failure(kept);
    assert_eq!(register(&mut daemon, "b", "http://b", ""), Ok(kept));
    daemon.unregister(kept);
    assert!(daemon.get(gone).is_none());
    assert_eq!(register(&mut daemon, "a", "http://a", ""), Ok(2));
    assert_eq!(register(&mut daemon, "b", "http://b", ""), Ok(3));
}

#[test]
fn services_are_found_by_address() {
    let mut daemon = Daemon::new();
    assert_eq!(daemon.find_url(&"http://a".to_string()), None);
    let a = register(&mut daemon, "a", "http://a/", "").unwrap();
    assert_eq!(daemon.find_url(&"http://a".to_string()), Some(a));
    assert_eq!(daemon.find_url(&"http://b".to_string()), None);
}
