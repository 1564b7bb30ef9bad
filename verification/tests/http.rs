use std::collections::HashMap;

use switchelo::daemon::Daemon;
use switchelo::inputs::http::{
    bind_note, endpoint_lines, forward, forward_next, list, register, require_loopback, unregister,
    Forwarding, IpAddress, ServeFailure, StatusCode, PUBLIC_NOTE,
};
use switchelo::inputs::wire::{RegisterReq, ServiceGroup, UnregisterReq};

const LOCAL: IpAddress = IpAddress::V4([127, 0, 0, 1]);
const REMOTE: IpAddress = IpAddress::V4([192, 168, 0, 7]);

fn add(daemon: &mut Daemon, name: &str, url: &str, description: &str) -> u64 {
    daemon
        .register(name.to_string(), url.to_string(), description.to_string())
        .unwrap()
}

fn request(name: &str, url: &str, description: &str) -> RegisterReq {
    RegisterReq {
        name: name.to_string(),
        url: url.to_string(),
        description: description.to_string(),
    }
}

fn grouped(daemon: &Daemon) -> HashMap<String, ServiceGroup> {
    let groups = list(daemon);
    let n = groups.len();
    let map: HashMap<String, ServiceGroup> = groups.into_iter().collect();
    assert_eq!(map.len(), n);
    map
}

fn target(step: &Forwarding) -> String {
    match step {
        Forwarding::ReadBody { target, .. } => target.clone(),
        Forwarding::Send { target, .. } => target.clone(),
        _ => panic!("no target"),
    }
}

fn answer(step: &Forwarding) -> (u16, &'static str, bool) {
    match step {
        Forwarding::Respond { reply, evicted } => {
            (reply.status.as_u16(), reply.message, *evicted)
        }
        _ => panic!("no answer"),
    }
}

#[test]
fn statuses_have_their_numbers() {
    assert_eq!(StatusCode::BadRequest.as_u16(), 400);
    assert_eq!(StatusCode::Forbidden.as_u16(), 403);
    assert_eq!(StatusCode::NotFound.as_u16(), 404);
    assert_eq!(StatusCode::BadGateway.as_u16(), 502);
}

#[test]
fn loopback_and_unspecified_addresses_are_told_apart() {
    let v4 = [
        ([127, 0, 0, 1], true, false),
        ([127, 255, 3, 4], true, false),
        ([128, 0, 0, 1], false, false),
        ([0, 0, 0, 0], false, true),
        ([0, 0, 0, 1], false, false),
        ([10, 0, 0, 127], false, false),
    ];
    for (o, loopback, unspecified) in v4 {
        assert_eq!(IpAddress::V4(o).is_loopback(), loopback);
        assert_eq!(IpAddress::V4(o).is_unspecified(), unspecified);
    }
    let v6: [([u16; 8], bool, bool); 5] = [
        ([0, 0, 0, 0, 0, 0, 0, 1], true, false),
        ([0, 0, 0, 0, 0, 0, 0, 0], false, true),
        ([0, 0, 0, 0, 0, 0xffff, 0x7f00, 1], false, false),
        ([1, 0, 0, 0, 0, 0, 0, 1], false, false),
        ([0xfe80, 0, 0, 0, 0, 0, 0, 0], false, false),
    ];
    for (s, loopback, unspecified) in v6 {
        assert_eq!(IpAddress::V6(s).is_loopback(), loopback);
        assert_eq!(IpAddress::V6(s).is_unspecified(), unspecified);
    }
}

#[test]
fn remote_peers_are_forbidden_to_change_the_registry() {
    assert_eq!(require_loopback(&LOCAL), Ok(()));
    assert_eq!(
        require_loopback(&REMOTE),
        Err((StatusCode::Forbidden, "registration is restricted to localhost"))
    );
    let mut daemon = Daemon::new();
    let id = add(&mut daemon, "api", "http://h", "");
    assert_eq!(
        register(&mut daemon, &REMOTE, request("x", "http://evil", "")),
        Err((
            StatusCode::Forbidden,
            "registration is restricted to localhost".to_string()
        ))
    );
    assert_eq!(
        unregister(&mut daemon, &REMOTE, UnregisterReq { id }),
        Err((StatusCode::Forbidden, "registration is restricted to localhost"))
    );
    assert_eq!(daemon.snapshot().len(), 1);
}

#[test]
fn local_peers_register_and_unregister() {
    let mut daemon = Daemon::new();
    let v6 = IpAddress::V6([0, 0, 0, 0, 0, 0, 0, 1]);
    let res = register(&mut daemon, &v6, request("api", "http://127.0.0.1:8081", "optional"));
    assert_eq!(res.unwrap().id, 0);
    assert_eq!(daemon.get(0).unwrap().description, "optional");
    assert_eq!(
        register(&mut daemon, &LOCAL, request("api", "unix:/run/x", "")),
        Err((
            StatusCode::BadRequest,
            "unsupported URL scheme (expected http:// or https://): unix:/run/x".to_string()
        ))
    );
    let gone = unregister(&mut daemon, &LOCAL, UnregisterReq { id: 0 });
    assert!(gone.unwrap().success);
    let again = unregister(&mut daemon, &LOCAL, UnregisterReq { id: 0 });
    assert!(!again.unwrap().success);
}

#[test]
fn listing_groups_by_name() {
    let mut daemon = Daemon::new();
    assert!(list(&daemon).is_empty());
    add(&mut daemon, "api", "http://127.0.0.1:8081", "echo service");
    add(&mut daemon, "web", "http://127.0.0.1:9090", "pages");
    add(&mut daemon, "api", "http://127.0.0.1:8082", "another text");
    let groups = grouped(&daemon);
    assert_eq!(groups.len(), 2);
    let api = &groups["api"];
    assert_eq!(api.description, "echo service");
    assert_eq!(api.services.len(), 2);
    assert_eq!(api.services[&0].url, "http://127.0.0.1:8081");
    assert_eq!(api.services[&2].url, "http://127.0.0.1:8082");
    let web = &groups["web"];
    assert_eq!(web.description, "pages");
    assert_eq!(web.services.len(), 1);
    assert_eq!(web.services[&1].url, "http://127.0.0.1:9090");
    // The description is that of the first instance that is left.
    daemon.unregister(0);
    assert_eq!(grouped(&daemon)["api"].description, "another text");
}

#[test]
fn prefix_is_stripped_and_query_preserved() {
    let mut daemon = Daemon::new();
    let id = add(&mut daemon, "api", "http://127.0.0.1:8081/", "");
    assert_eq!(id, 0);
    let root = forward(&daemon, "api", 0, "", None);
    assert_eq!(target(&root), "http://127.0.0.1:8081/");
    let docs = forward(&daemon, "api", 0, "docs", None);
    assert_eq!(target(&docs), "http://127.0.0.1:8081/docs");
    let search = forward(&daemon, "api", 0, "search", Some("q=1"));
    assert_eq!(target(&search), "http://127.0.0.1:8081/search?q=1");
    let empty = forward(&daemon, "api", 0, "a/b", Some(""));
    assert_eq!(target(&empty), "http://127.0.0.1:8081/a/b?");
}

#[test]
fn unknown_routes_are_not_found() {
    let mut daemon = Daemon::new();
    add(&mut daemon, "api", "http://h", "");
    assert_eq!(
        answer(&forward(&daemon, "api", 1, "", None)),
        (404, "service not found", false)
    );
    assert_eq!(
        answer(&forward(&daemon, "web", 0, "", None)),
        (404, "service name/id mismatch", false)
    );
}

#[test]
fn unreadable_body_is_a_bad_request() {
    let mut daemon = Daemon::new();
    let id = add(&mut daemon, "api", "http://h", "");
    let step = forward(&daemon, "api", id, "", None);
    let end = forward_next(&mut daemon, step, false);
    assert_eq!(answer(&end), (400, "invalid request body", false));
    assert_eq!(daemon.get(id).unwrap().failures, 0);
    // What was answered stays answered.
    assert_eq!(answer(&forward_next(&mut daemon, end, true)), (400, "invalid request body", false));
}

#[test]
fn answered_request_is_relayed_and_clears_the_streak() {
    let mut daemon = Daemon::new();
    let id = add(&mut daemon, "api", "http://h", "");
    daemon.record_failure(id);
    daemon.record_failure(id);
    let step = forward(&daemon, "api", id, "x", None);
    let step = forward_next(&mut daemon, step, true);
    assert!(matches!(step, Forwarding::Send { .. }));
    assert_eq!(target(&step), "http://h/x");
    let step = forward_next(&mut daemon, step, true);
    assert!(matches!(step, Forwarding::Relay));
    assert_eq!(daemon.get(id).unwrap().failures, 0);
    let done = forward_next(&mut daemon, step, true);
    assert!(matches!(done, Forwarding::Relay));
    assert_eq!(answer(&forward_next(&mut daemon, done, false)), (502, "", false));
    assert_eq!(daemon.get(id).unwrap().failures, 0);
}

#[test]
fn dead_backend_is_removed_after_three_requests() {
    let mut daemon = Daemon::new();
    let id = add(&mut daemon, "api", "http://h", "");
    for n in 1..=3 {
        let step = forward(&daemon, "api", id, "", None);
        let step = forward_next(&mut daemon, step, true);
        let end = forward_next(&mut daemon, step, false);
        assert_eq!(answer(&end), (502, "upstream unavailable", n == 3));
    }
    assert_eq!(
        answer(&forward(&daemon, "api", id, "", None)),
        (404, "service not found", false)
    );
}

#[test]
fn startup_tells_where_the_server_is() {
    let any = IpAddress::V4([0, 0, 0, 0]);
    assert_eq!(
        endpoint_lines(&any, 8080, "0.0.0.0:8080", Some("192.168.0.7")),
        vec![
            "switchelo is running:",
            "  http://localhost:8080/",
            "  http://192.168.0.7:8080/"
        ]
    );
    assert_eq!(
        endpoint_lines(&any, 80, "0.0.0.0:80", None),
        vec!["switchelo is running:", "  http://localhost:80/"]
    );
    let v6 = IpAddress::V6([0, 0, 0, 0, 0, 0, 0, 1]);
    assert_eq!(
        endpoint_lines(&v6, 9000, "[::1]:9000", Some("192.168.0.7")),
        vec!["switchelo is running:", "  http://[::1]:9000/"]
    );
    assert_eq!(bind_note(&any), Some(PUBLIC_NOTE));
    assert_eq!(bind_note(&v6), None);
}

#[test]
fn server_failures_have_their_messages() {
    let used = ServeFailure::AddressInUse { addr: "0.0.0.0:80".to_string() };
    assert_eq!(
        used.message(),
        "error: address 0.0.0.0:80 is already in use \
         (another switchelo instance? set BIND to a free port)"
    );
    let other = ServeFailure::NotBound { addr: "x".to_string(), error: "bad".to_string() };
    assert_eq!(other.message(), "error: failed to bind x: bad");
    let stopped = ServeFailure::Stopped { error: "e".to_string() };
    assert_eq!(stopped.message(), "error: server stopped: e");
}
