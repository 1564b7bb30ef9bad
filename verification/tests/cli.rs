use switchelo::inputs::cli::{
    client_base_url, client_reply, client_request, daemon_args, parse_field, probe_url, ready_line,
    Action, ClientFailure, Stop, Wait, HELP, POLL_ATTEMPTS,
};
use switchelo::inputs::wire::{RegisterRes, UnregisterRes};

fn parse(args: &[&str], env: Option<&str>) -> Result<Action, Stop> {
    let args: Vec<String> = args.iter().map(|a| a.to_string()).collect();
    Action::parse(&args, env.map(|b| b.to_string()))
}

fn usage(args: &[&str]) -> String {
    match parse(args, None) {
        Err(Stop::Usage(text)) => text,
        _ => panic!("no usage error"),
    }
}

#[test]
fn no_subcommand_serves() {
    let action = parse(&[], None).unwrap();
    assert!(matches!(action, Action::Serve { .. }));
    assert_eq!(action.bind(), "0.0.0.0:8080");
    assert_eq!(parse(&[], Some("1.2.3.4:5")).unwrap().bind(), "1.2.3.4:5");
    let option = parse(&["--bind", "0.0.0.0:9000"], Some("1.2.3.4:5")).unwrap();
    assert!(matches!(option, Action::Serve { .. }));
    assert_eq!(option.bind(), "0.0.0.0:9000");
    assert_eq!(parse(&["-b", "a:1", "-b", "--bind"], None).unwrap().bind(), "--bind");
}

#[test]
fn register_takes_name_url_and_description() {
    let args = ["register", "api", "-b", "h:1", "http://127.0.0.1:8081", "main api", "more"];
    match parse(&args, None).unwrap() {
        Action::Register { bind, name, url, description } => {
            assert_eq!(bind, "h:1");
            assert_eq!(name, "api");
            assert_eq!(url, "http://127.0.0.1:8081");
            assert_eq!(description, "main api");
        }
        _ => panic!("no registration"),
    }
    match parse(&["register", "api", "u"], None).unwrap() {
        Action::Register { bind, description, .. } => {
            assert_eq!(bind, "0.0.0.0:8080");
            assert_eq!(description, "");
        }
        _ => panic!("no registration"),
    }
    assert_eq!(usage(&["register"]), "register requires <NAME> <URL> [DESCRIPTION]");
    assert_eq!(usage(&["register", "api"]), "register requires <NAME> <URL> [DESCRIPTION]");
}

#[test]
fn unregister_takes_a_number() {
    let ids = [("0", 0u64), ("+7", 7), ("007", 7), ("18446744073709551615", u64::MAX)];
    for (text, id) in ids {
        match parse(&["unregister", text], None).unwrap() {
            Action::Unregister { id: got, .. } => assert_eq!(got, id),
            _ => panic!("no deregistration"),
        }
    }
    for text in ["", "+", "x", "1x", " 1", "1_0", "18446744073709551616", "1e3"] {
        assert_eq!(usage(&["unregister", text]), "unregister requires a numeric <ID>");
    }
    assert_eq!(usage(&["unregister"]), "unregister requires a numeric <ID>");
}

#[test]
fn misuse_is_reported() {
    assert_eq!(usage(&["register", "--bind"]), "--bind requires an address");
    assert_eq!(usage(&["--nope", "-h"]), format!("unknown option: --nope\n\n{HELP}"));
    assert_eq!(usage(&["-"]), format!("unknown option: -\n\n{HELP}"));
    assert_eq!(usage(&["list"]), format!("unknown subcommand: list\n\n{HELP}"));
    let stop = parse(&["register", "--bind"], None).unwrap_err();
    assert_eq!(stop.exit_status(), 2);
    assert_eq!(stop.text(), "error: --bind requires an address");
}

#[test]
fn help_is_printed() {
    for args in [["-h", "--nope"], ["--help", "x"], ["register", "-h"]] {
        let stop = parse(&args, None).unwrap_err();
        assert!(matches!(stop, Stop::Help));
        assert_eq!(stop.exit_status(), 0);
        assert_eq!(stop.text(), HELP);
    }
    assert!(HELP.starts_with("switchelo \u{2014} a dynamic service registry"));
    assert!(HELP.ends_with("    switchelo unregister 0"));
}

#[test]
fn started_daemon_gets_the_clients_address() {
    for bind in ["0.0.0.0:8080", "-h", ""] {
        let args = daemon_args(bind);
        assert_eq!(args, vec!["--bind", bind]);
        let action = Action::parse(&args, Some("other:1".to_string())).unwrap();
        assert!(matches!(action, Action::Serve { .. }));
        assert_eq!(action.bind(), bind);
    }
}

#[test]
fn wildcards_are_dialed_as_loopback() {
    assert_eq!(client_base_url("0.0.0.0:8080"), "http://127.0.0.1:8080");
    assert_eq!(client_base_url("[::]:9000"), "http://127.0.0.1:9000");
    assert_eq!(client_base_url(":::9000"), "http://127.0.0.1:9000");
    assert_eq!(client_base_url(":9000"), "http://127.0.0.1:9000");
    assert_eq!(client_base_url(""), "http://127.0.0.1:8080");
    assert_eq!(client_base_url("0.0.0.0"), "http://127.0.0.1:8080");
    assert_eq!(client_base_url("host"), "http://host:8080");
    assert_eq!(client_base_url("10.0.0.1:81"), "http://10.0.0.1:81");
    assert_eq!(client_base_url("[::1]:81"), "http://[::1]:81");
    assert_eq!(client_base_url("h\u{f6}st:"), "http://h\u{f6}st:");
    assert_eq!(probe_url("http://127.0.0.1:8080"), "http://127.0.0.1:8080/list");
}

#[test]
fn wildcard_host_alone_gets_the_default_port() {
    assert_eq!(client_base_url("[::]"), "http://127.0.0.1:8080");
    assert_eq!(client_base_url("::"), "http://127.0.0.1:8080");
    assert_eq!(client_base_url("0.0.0.0"), "http://127.0.0.1:8080");
    assert_eq!(client_base_url(""), "http://127.0.0.1:8080");
    // Other addresses are taken apart at their last colon.
    assert_eq!(client_base_url("[::1]"), "http://[::1]");
    assert_eq!(client_base_url("[::]:"), "http://127.0.0.1:");
    assert_eq!(client_base_url("::1"), "http://::1");
    let action = parse(&["unregister", "1", "--bind", "[::]"], None).unwrap();
    assert_eq!(client_request(&action).url, "http://127.0.0.1:8080/unregistry");
}

#[test]
fn control_characters_are_escaped() {
    let name = "\u{0}\u{1}\u{8}\t\n\u{b}\u{c}\r\u{1f} \u{7f}/\u{1f600}";
    let action = parse(&["register", name, "http://h"], None).unwrap();
    let body = client_request(&action).body;
    assert_eq!(
        body,
        "{\"description\":\"\",\"name\":\"\\u0000\\u0001\\b\\t\\n\\u000b\\f\\r\\u001f \u{7f}/\u{1f600}\",\"url\":\"http://h\"}"
    );
    let value: serde_json::Value = serde_json::from_str(&body).unwrap();
    assert_eq!(value["name"], name);
}

#[test]
fn register_request_is_json() {
    let action = parse(&["register", "a\"pi", "http://h", "d\\\n\u{e9}"], None).unwrap();
    let request = client_request(&action);
    assert_eq!(request.url, "http://127.0.0.1:8080/registry");
    assert_eq!(
        request.body,
        "{\"description\":\"d\\\\\\n\u{e9}\",\"name\":\"a\\\"pi\",\"url\":\"http://h\"}"
    );
    // What was written reads back.
    let value: serde_json::Value = serde_json::from_str(&request.body).unwrap();
    assert_eq!(value["name"], "a\"pi");
    assert_eq!(value["url"], "http://h");
    assert_eq!(value["description"], "d\\\n\u{e9}");
    assert_eq!(parse_field(&request.body, "name"), Ok("\"a\\\"pi\"".to_string()));
}

#[test]
fn unregister_request_is_json() {
    let action = parse(&["unregister", "42", "-b", "h:1"], None).unwrap();
    let request = client_request(&action);
    assert_eq!(request.url, "http://h:1/unregistry");
    assert_eq!(request.body, "{\"id\":42}");
    assert_eq!(parse_field(&request.body, "id"), Ok("42".to_string()));
}

#[test]
fn fields_are_read_from_objects_only() {
    assert_eq!(parse_field("{\"id\": 3, \"x\": [1, {\"y\": null}]}", "x"), Ok("[1,{\"y\":null}]".to_string()));
    for text in ["", "3", "[1]", "{\"other\":1}", "{\"id\":1", "forbidden"] {
        assert_eq!(
            parse_field(text, "id"),
            Err(format!("unexpected daemon response: {text}"))
        );
    }
}

#[test]
fn replies_are_reported() {
    let register =
        parse(&["register", "api", "http://127.0.0.1:8081", "main api"], None).unwrap();
    assert_eq!(
        client_reply(&register, "{\"id\":0}"),
        Ok("registered 'api' -> http://127.0.0.1:8081 (id=0); route: /api/0/".to_string())
    );
    assert_eq!(
        client_reply(&register, "nope"),
        Err("unexpected daemon response: nope".to_string())
    );
    let unregister = parse(&["unregister", "5"], None).unwrap();
    assert_eq!(
        client_reply(&unregister, "{\"success\":true}"),
        Ok("unregistered id=5".to_string())
    );
    assert_eq!(
        client_reply(&unregister, "{\"success\":false}"),
        Ok("no service with id=5 was registered".to_string())
    );
    assert_eq!(
        client_reply(&unregister, "{\"id\":0}"),
        Err("unexpected daemon response: {\"id\":0}".to_string())
    );
}

#[test]
fn client_starts_the_daemon_once_and_gives_up() {
    assert_eq!(POLL_ATTEMPTS, 50);
    assert_eq!(Wait::Probe.next(true), Wait::Ready { started: false });
    let mut wait = Wait::Probe.next(false);
    let mut starts = 0;
    for n in 0..50 {
        match wait {
            Wait::Poll { start, left } => {
                assert_eq!(left, 50 - n);
                if start {
                    starts += 1;
                }
            }
            _ => panic!("no poll"),
        }
        assert_eq!(wait.next(true), Wait::Ready { started: true });
        wait = wait.next(false);
    }
    assert_eq!(starts, 1);
    assert_eq!(wait, Wait::GiveUp);
    assert_eq!(wait.next(true), Wait::GiveUp);
    assert_eq!(Wait::Ready { started: true }.next(false), Wait::Ready { started: true });
    assert_eq!(ready_line("0.0.0.0:8080"), "daemon ready on 0.0.0.0:8080");
}

#[test]
fn client_failures_have_their_messages() {
    let e = || "e".to_string();
    let u = || "u".to_string();
    assert_eq!(
        ClientFailure::NoExecutable { error: e() }.message(),
        "cannot locate switchelo executable: e"
    );
    assert_eq!(ClientFailure::NotStarted { error: e() }.message(), "failed to start daemon: e");
    assert_eq!(ClientFailure::NotReady.message(), "daemon did not become ready in time");
    assert_eq!(
        ClientFailure::Request { url: u(), error: e() }.message(),
        "request to u failed: e"
    );
    assert_eq!(
        ClientFailure::Response { url: u(), error: e() }.message(),
        "reading response from u failed: e"
    );
}

#[test]
fn printed_id_can_be_unregistered() {
    let register = parse(&["register", "api", "http://h"], None).unwrap();
    let line = client_reply(&register, "{\"id\":17}").unwrap();
    assert_eq!(line, "registered 'api' -> http://h (id=17); route: /api/17/");
    match parse(&["unregister", "17"], None).unwrap() {
        Action::Unregister { id, .. } => assert_eq!(id, 17),
        _ => panic!("no deregistration"),
    }
}

#[test]
fn client_reads_what_the_server_answers() {
    let id = RegisterRes { id: 9 }.to_json();
    assert_eq!(id, "{\"id\":9}");
    let register = parse(&["register", "api", "http://h"], None).unwrap();
    assert_eq!(
        client_reply(&register, &id),
        Ok("registered 'api' -> http://h (id=9); route: /api/9/".to_string())
    );
    let unregister = parse(&["unregister", "9"], None).unwrap();
    let yes = UnregisterRes { success: true }.to_json();
    assert_eq!(yes, "{\"success\":true}");
    assert_eq!(client_reply(&unregister, &yes), Ok("unregistered id=9".to_string()));
    let no = UnregisterRes { success: false }.to_json();
    assert_eq!(no, "{\"success\":false}");
    assert_eq!(
        client_reply(&unregister, &no),
        Ok("no service with id=9 was registered".to_string())
    );
}
