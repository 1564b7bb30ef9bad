//! What the command line asks for and what the client does with it, said of the
//! arguments, of the addresses and of the texts themselves.

use vstd::prelude::*;

use crate::inputs::cli::{
    Action, ActionView, ClientFailure, Scanned, Stop, StopView, Wait, FAILURE_STATUS,
    POLL_ATTEMPTS, POLL_INTERVAL_MILLIS, PROBE_TIMEOUT_MILLIS, REQUEST_TIMEOUT_SECS,
};

verus! {

// ---------------------------------------------------------------------------
// The arguments
// ---------------------------------------------------------------------------

/// Arguments without a dash in front are no options: they are kept, in order,
/// before what the arguments behind them say.
proof fn plain_arguments_are_kept(plain: Seq<Seq<char>>, rest: Seq<Seq<char>>)
    requires
        forall|i: int|
            0 <= i < plain.len() ==> (#[trigger] plain[i]).len() == 0 || plain[i][0] != '-',
    ensures
        crate::inputs::cli::scan(plain + rest) == crate::inputs::cli::scanned_before(
            None,
            plain,
            crate::inputs::cli::scan(rest),
        ),
    decreases plain.len(),
{
    reveal_strlit("-");
    reveal_strlit("-h");
    reveal_strlit("--help");
    reveal_strlit("-b");
    reveal_strlit("--bind");
    let all = plain + rest;
    if plain.len() == 0 {
        assert(all =~= rest);
        if let Ok(s) = crate::inputs::cli::scan(rest) {
            assert(plain + s.positional =~= s.positional);
        }
    } else {
        let head = plain[0];
        let tail = plain.skip(1);
        assert(all[0] == head);
        assert(all.skip(1) =~= tail + rest);
        assert forall|i: int| 0 <= i < tail.len() implies (#[trigger] tail[i]).len() == 0
            || tail[i][0] != '-' by {
            assert(tail[i] == plain[i + 1]);
        }
        plain_arguments_are_kept(tail, rest);
        assert("-h"@[0] == '-' && "--help"@[0] == '-' && "-b"@[0] == '-' && "--bind"@[0] == '-');
        if crate::inputs::cli::is_option(head) {
            assert("-"@[0] == head[0]);
        }
        if let Ok(s) = crate::inputs::cli::scan(rest) {
            assert(seq![head] + (tail + s.positional) =~= plain + s.positional);
        }
    }
}

/// A bind option names the address as the environment does, wherever it stands
/// among the other arguments: it overrides the environment, and a later one
/// overrides it.
pub proof fn bind_option_stands_for_the_environment(
    plain: Seq<Seq<char>>,
    option: Seq<char>,
    bind: Seq<char>,
    rest: Seq<Seq<char>>,
    env: Option<Seq<char>>,
)
    requires
        forall|i: int|
            0 <= i < plain.len() ==> (#[trigger] plain[i]).len() == 0 || plain[i][0] != '-',
        option == "-b"@ || option == "--bind"@,
    ensures
        crate::inputs::cli::parsed(plain + seq![option, bind] + rest, env)
            == crate::inputs::cli::parsed(plain + rest, Some(bind)),
{
    reveal_strlit("-h");
    reveal_strlit("--help");
    reveal_strlit("-b");
    reveal_strlit("--bind");
    let behind = seq![option, bind] + rest;
    assert(plain + seq![option, bind] + rest =~= plain + behind);
    assert(behind[0] == option && behind[1] == bind);
    assert(behind.skip(2) =~= rest);
    assert("-b"@[1] != "-h"@[1]);
    assert("--bind"@[2] != "--help"@[2]);
    assert(!crate::inputs::cli::is_help(option));
    plain_arguments_are_kept(plain, behind);
    plain_arguments_are_kept(plain, rest);
    if let Ok(s) = crate::inputs::cli::scan(rest) {
        assert(plain + (Seq::<Seq<char>>::empty() + s.positional) =~= plain + s.positional);
    }
}

/// Where neither an option nor the environment names an address, it is
/// `0.0.0.0:8080`.
pub proof fn default_address_stands_for_the_environment(args: Seq<Seq<char>>)
    ensures
        crate::inputs::cli::parsed(args, None) == crate::inputs::cli::parsed(
            args,
            Some("0.0.0.0:8080"@),
        ),
{
}

/// Where the arguments hold no bind option, the scan finds no address.
proof fn no_option_names_no_address(args: Seq<Seq<char>>)
    requires
        forall|i: int|
            0 <= i < args.len() ==> #[trigger] args[i] != "-b"@ && args[i] != "--bind"@,
    ensures
        crate::inputs::cli::scan(args) matches Ok(s) ==> s.bind is None,
    decreases args.len(),
{
    if args.len() > 0 {
        let tail = args.skip(1);
        assert forall|i: int| 0 <= i < tail.len() implies #[trigger] tail[i] != "-b"@ && tail[i]
            != "--bind"@ by {
            assert(tail[i] == args[i + 1]);
        }
        no_option_names_no_address(tail);
        assert(args[0] != "-b"@ && args[0] != "--bind"@);
    }
}

/// Where the arguments hold no bind option, the address is that of the
/// environment, else `0.0.0.0:8080`, whatever is asked for.
pub proof fn address_comes_from_the_environment(args: Seq<Seq<char>>, env: Option<Seq<char>>)
    requires
        forall|i: int|
            0 <= i < args.len() ==> #[trigger] args[i] != "-b"@ && args[i] != "--bind"@,
    ensures
        ({
            let address = match env {
                Some(named) => named,
                None => "0.0.0.0:8080"@,
            };
            match crate::inputs::cli::parsed(args, env) {
                Ok(ActionView::Serve { bind }) => bind == address,
                Ok(ActionView::Register { bind, .. }) => bind == address,
                Ok(ActionView::Unregister { bind, .. }) => bind == address,
                Err(_) => true,
            }
        }),
{
    no_option_names_no_address(args);
}

/// Arguments without a dash in front ask for what the first of them says: with
/// none of them the daemon runs; `register` takes a name, an address and, if
/// there is one, a description; `unregister` takes a number. All else is misuse,
/// and the answer says how.
pub proof fn first_argument_says_what_is_asked(args: Seq<Seq<char>>, bind: Seq<char>)
    requires
        forall|i: int|
            0 <= i < args.len() ==> (#[trigger] args[i]).len() == 0 || args[i][0] != '-',
    ensures
        ({
            let outcome = crate::inputs::cli::parsed(args, Some(bind));
            let register_usage = "register requires <NAME> <URL> [DESCRIPTION]"@;
            let unregister_usage = "unregister requires a numeric <ID>"@;
            &&& args.len() == 0 ==> outcome == Ok::<ActionView, StopView>(
                ActionView::Serve { bind },
            )
            &&& args.len() >= 1 && args[0] == "register"@ ==> {
                &&& args.len() < 3 ==> outcome == Err::<ActionView, StopView>(
                    StopView::Usage(register_usage),
                )
                &&& args.len() == 3 ==> outcome == Ok::<ActionView, StopView>(
                    ActionView::Register {
                        bind,
                        name: args[1],
                        url: args[2],
                        description: seq![],
                    },
                )
                &&& args.len() > 3 ==> outcome == Ok::<ActionView, StopView>(
                    ActionView::Register {
                        bind,
                        name: args[1],
                        url: args[2],
                        description: args[3],
                    },
                )
            }
            &&& args.len() >= 1 && args[0] == "unregister"@ ==> {
                &&& args.len() == 1 ==> outcome == Err::<ActionView, StopView>(
                    StopView::Usage(unregister_usage),
                )
                &&& args.len() > 1 ==> outcome == match crate::text::u64_of_text(args[1]) {
                    Some(id) => Ok::<ActionView, StopView>(ActionView::Unregister { bind, id }),
                    None => Err::<ActionView, StopView>(StopView::Usage(unregister_usage)),
                }
            }
            &&& args.len() >= 1 && args[0] != "register"@ && args[0] != "unregister"@ ==> outcome
                == Err::<ActionView, StopView>(
                StopView::Usage(
                    "unknown subcommand: "@ + args[0] + "\n\n"@ + crate::inputs::cli::HELP@,
                ),
            )
        }),
{
    reveal_strlit("register");
    reveal_strlit("unregister");
    assert("register"@.len() != "unregister"@.len());
    plain_arguments_are_kept(args, seq![]);
    assert(args + Seq::<Seq<char>>::empty() =~= args);
    assert(crate::inputs::cli::scan(args) == Ok::<Scanned, StopView>(
        Scanned { bind: None, positional: args },
    ));
}

/// The first option that is not a bind option ends the parsing, whatever stands
/// behind it: one of the help options asks for the help, and any other is misuse.
pub proof fn first_other_option_ends_the_parsing(
    plain: Seq<Seq<char>>,
    option: Seq<char>,
    rest: Seq<Seq<char>>,
    env: Option<Seq<char>>,
)
    requires
        forall|i: int|
            0 <= i < plain.len() ==> (#[trigger] plain[i]).len() == 0 || plain[i][0] != '-',
        option.len() > 0,
        option[0] == '-',
        option != "-b"@,
        option != "--bind"@,
    ensures
        crate::inputs::cli::parsed(plain + seq![option] + rest, env) == if option == "-h"@ || option
            == "--help"@ {
            Err::<ActionView, StopView>(StopView::Help)
        } else {
            Err::<ActionView, StopView>(
                StopView::Usage(
                    "unknown option: "@ + option + "\n\n"@ + crate::inputs::cli::HELP@,
                ),
            )
        },
{
    reveal_strlit("-");
    let behind = seq![option] + rest;
    assert(plain + seq![option] + rest =~= plain + behind);
    assert(behind[0] == option);
    assert("-"@ =~= option.subrange(0, 1));
    plain_arguments_are_kept(plain, behind);
}

/// A bind option at the end of the arguments is misuse.
pub proof fn bind_option_needs_an_address(
    plain: Seq<Seq<char>>,
    option: Seq<char>,
    env: Option<Seq<char>>,
)
    requires
        forall|i: int|
            0 <= i < plain.len() ==> (#[trigger] plain[i]).len() == 0 || plain[i][0] != '-',
        option == "-b"@ || option == "--bind"@,
    ensures
        crate::inputs::cli::parsed(plain + seq![option], env) == Err::<ActionView, StopView>(
            StopView::Usage("--bind requires an address"@),
        ),
{
    reveal_strlit("-h");
    reveal_strlit("--help");
    reveal_strlit("-b");
    reveal_strlit("--bind");
    assert("-b"@[1] != "-h"@[1]);
    assert("--bind"@[2] != "--help"@[2]);
    plain_arguments_are_kept(plain, seq![option]);
}

/// The program exits with 0 where the help was asked for, and with 2 where it was
/// misused.
pub proof fn misuse_exits_with_two(stop: Stop)
    ensures
        stop is Help ==> stop.status() == 0,
        stop is Usage ==> stop.status() == 2,
        FAILURE_STATUS == 2,
{
}

// ---------------------------------------------------------------------------
// The address that the client dials
// ---------------------------------------------------------------------------

/// What stands before the last colon of an address is its host, and what stands
/// behind it is its port, unless the address is a wildcard host with colons.
proof fn last_colon_parts_host_and_port(host: Seq<char>, port: Seq<char>)
    requires
        !port.contains(':'),
        host + ":"@ + port != "::"@,
        host + ":"@ + port != "[::]"@,
    ensures
        crate::inputs::cli::bind_host(host + ":"@ + port) == host,
        crate::inputs::cli::bind_port(host + ":"@ + port) == port,
{
    reveal_strlit("");
    reveal_strlit(":");
    reveal_strlit("0.0.0.0");
    let bind = host + ":"@ + port;
    assert(bind.len() == host.len() + 1 + port.len());
    assert(bind[host.len() as int] == ':');
    if bind == "0.0.0.0"@ {
        assert("0.0.0.0"@[host.len() as int] != ':');
    }
    assert(!crate::inputs::cli::is_wildcard_host(bind));
    assert(bind.contains(':'));
    super::host_and_port_make_up_the_address(bind);
    super::last_colon_splits_uniquely(
        host,
        port,
        crate::inputs::cli::bind_host(bind),
        crate::inputs::cli::bind_port(bind),
    );
}

/// An address with a port is dialed as it is, unless its host is empty,
/// `0.0.0.0`, `::` or `[::]`. The addresses `::` and `[::]` have no port.
pub proof fn address_is_dialed_as_it_is(host: Seq<char>, port: Seq<char>)
    requires
        !port.contains(':'),
        host != ""@,
        host != "0.0.0.0"@,
        host != "::"@,
        host != "[::]"@,
        host + ":"@ + port != "::"@,
        host + ":"@ + port != "[::]"@,
    ensures
        crate::inputs::cli::base_url(host + ":"@ + port) == "http://"@ + host + ":"@ + port,
{
    last_colon_parts_host_and_port(host, port);
}

/// A wildcard host is dialed as `127.0.0.1`, at the port of the address.
pub proof fn wildcard_is_dialed_at_its_port(host: Seq<char>, port: Seq<char>)
    requires
        !port.contains(':'),
        host == ""@ || host == "0.0.0.0"@ || host == "::"@ || host == "[::]"@,
    ensures
        crate::inputs::cli::base_url(host + ":"@ + port) == "http://127.0.0.1:"@ + port,
{
    reveal_strlit("");
    reveal_strlit("0.0.0.0");
    reveal_strlit("::");
    reveal_strlit("[::]");
    reveal_strlit(":");
    reveal_strlit("http://");
    reveal_strlit("127.0.0.1");
    reveal_strlit("http://127.0.0.1:");
    let bind = host + ":"@ + port;
    assert(bind.len() == host.len() + 1 + port.len());
    assert(forall|i: int| 0 <= i < host.len() ==> bind[i] == host[i]);
    assert(bind[host.len() as int] == ':');
    if bind == "::"@ {
        assert(host.len() < 2);
        assert(port[0] == bind[1]);
    }
    if bind == "[::]"@ {
        if host.len() == 0 {
            assert(bind[0] == ':');
        } else {
            assert(bind[0] == host[0]);
        }
    }
    last_colon_parts_host_and_port(host, port);
    assert("http://"@ + "127.0.0.1"@ + ":"@ =~= "http://127.0.0.1:"@);
}

/// An address without a colon is a host, which is dialed at port 8080; a wildcard
/// host that stands alone is dialed as `127.0.0.1`, at port 8080 too.
pub proof fn address_without_port_is_dialed_at_the_default(bind: Seq<char>)
    requires
        !bind.contains(':') || bind == "::"@ || bind == "[::]"@,
    ensures
        crate::inputs::cli::base_url(bind) == if bind == ""@ || bind == "0.0.0.0"@ || bind == "::"@
            || bind == "[::]"@ {
            "http://127.0.0.1:8080"@
        } else {
            "http://"@ + bind + ":8080"@
        },
{
    reveal_strlit("http://");
    reveal_strlit("127.0.0.1");
    reveal_strlit(":");
    reveal_strlit("8080");
    reveal_strlit(":8080");
    reveal_strlit("http://127.0.0.1:8080");
    crate::inputs::cli::last_colon_is_last(bind);
    assert("http://"@ + "127.0.0.1"@ + ":"@ + "8080"@ =~= "http://127.0.0.1:8080"@);
    assert("http://"@ + bind + ":"@ + "8080"@ =~= "http://"@ + bind + ":8080"@);
}

// ---------------------------------------------------------------------------
// What the client sends and prints
// ---------------------------------------------------------------------------

/// A registration is posted to `/registry`, and a deregistration to
/// `/unregistry`, of the daemon at the address of the action, the one that is
/// probed at `/list`.
pub proof fn request_goes_to_the_address_of_the_action(
    bind: Seq<char>,
    name: Seq<char>,
    url: Seq<char>,
    description: Seq<char>,
    id: u64,
)
    ensures
        crate::inputs::cli::request_url(ActionView::Register { bind, name, url, description })
            == crate::inputs::cli::base_url(bind) + "/registry"@,
        crate::inputs::cli::request_url(ActionView::Unregister { bind, id })
            == crate::inputs::cli::base_url(bind) + "/unregistry"@,
{
}

/// A request to a daemon at `{host}:{port}` goes to that host and port; one to a
/// daemon that is bound to every interface goes to that port of this machine.
pub proof fn request_goes_to_host_and_port(
    host: Seq<char>,
    port: Seq<char>,
    name: Seq<char>,
    url: Seq<char>,
    description: Seq<char>,
    id: u64,
)
    requires
        !port.contains(':'),
        host + ":"@ + port != "::"@,
        host + ":"@ + port != "[::]"@,
    ensures
        ({
            let bind = host + ":"@ + port;
            let dialed = if host == ""@ || host == "0.0.0.0"@ || host == "::"@ || host == "[::]"@ {
                "http://127.0.0.1:"@ + port
            } else {
                "http://"@ + host + ":"@ + port
            };
            &&& crate::inputs::cli::request_url(
                ActionView::Register { bind, name, url, description },
            ) == dialed + "/registry"@
            &&& crate::inputs::cli::request_url(ActionView::Unregister { bind, id }) == dialed
                + "/unregistry"@
        }),
{
    if host == ""@ || host == "0.0.0.0"@ || host == "::"@ || host == "[::]"@ {
        wildcard_is_dialed_at_its_port(host, port);
    } else {
        address_is_dialed_as_it_is(host, port);
    }
}

/// The client prints the name, the address, the id that the daemon answered, and
/// the route that these make up.
pub proof fn registration_is_printed_with_its_route(
    bind: Seq<char>,
    name: Seq<char>,
    url: Seq<char>,
    description: Seq<char>,
    body: Seq<char>,
    id: Seq<char>,
)
    requires
        crate::json::field_json(body, "id"@) == Some(id),
    ensures
        crate::inputs::cli::registered_text(name, url, id) == "registered '"@ + name + "' -> "@
            + url + " (id="@ + id + "); route: /"@ + name + "/"@ + id + "/"@,
        crate::inputs::cli::reply_outcome(
            ActionView::Register { bind, name, url, description },
            body,
        ) == Ok::<Seq<char>, Seq<char>>(
            "registered '"@ + name + "' -> "@ + url + " (id="@ + id + "); route: /"@ + name + "/"@
                + id + "/"@,
        ),
{
}

/// The client tells that a service was deregistered exactly where the daemon
/// answered `true`.
pub proof fn deregistration_is_told_by_the_answer(
    bind: Seq<char>,
    id: u64,
    body: Seq<char>,
    success: Seq<char>,
)
    requires
        crate::json::field_json(body, "success"@) == Some(success),
    ensures
        ({
            let text = if success == "true"@ {
                "unregistered id="@ + crate::text::decimal(id as nat)
            } else {
                "no service with id="@ + crate::text::decimal(id as nat) + " was registered"@
            };
            &&& crate::inputs::cli::unregistered_text(id, success) == text
            &&& crate::inputs::cli::reply_outcome(ActionView::Unregister { bind, id }, body)
                == Ok::<Seq<char>, Seq<char>>(text)
        }),
{
}

/// An answer without the field that the client looks for is a failure, which
/// shows the answer.
pub proof fn unexpected_answer_is_shown(
    bind: Seq<char>,
    name: Seq<char>,
    url: Seq<char>,
    description: Seq<char>,
    id: u64,
    body: Seq<char>,
)
    ensures
        crate::json::field_json(body, "id"@) is None ==> crate::inputs::cli::reply_outcome(
            ActionView::Register { bind, name, url, description },
            body,
        ) == Err::<Seq<char>, Seq<char>>("unexpected daemon response: "@ + body),
        crate::json::field_json(body, "success"@) is None ==> crate::inputs::cli::reply_outcome(
            ActionView::Unregister { bind, id },
            body,
        ) == Err::<Seq<char>, Seq<char>>("unexpected daemon response: "@ + body),
{
}

/// A field that is there is handed on as it is; one that is missing is a failure,
/// which shows the answer.
pub proof fn field_is_handed_on(body: Seq<char>, field: Seq<char>)
    ensures
        crate::inputs::cli::field_or_failure(body, Some(field)) == Ok::<Seq<char>, Seq<char>>(
            field,
        ),
        crate::inputs::cli::field_or_failure(body, None) == Err::<Seq<char>, Seq<char>>(
            "unexpected daemon response: "@ + body,
        ),
{
}

/// A failure of the client names the URL that it concerns, if there is one, and
/// what the system said of it.
pub proof fn client_failure_names_its_cause(url: String, error: String)
    ensures
        (ClientFailure::NoExecutable { error }).text() == "cannot locate switchelo executable: "@
            + error@,
        (ClientFailure::NotStarted { error }).text() == "failed to start daemon: "@ + error@,
        ClientFailure::NotReady.text() == "daemon did not become ready in time"@,
        (ClientFailure::Request { url, error }).text() == "request to "@ + url@ + " failed: "@
            + error@,
        (ClientFailure::Response { url, error }).text() == "reading response from "@ + url@
            + " failed: "@ + error@,
{
}

// ---------------------------------------------------------------------------
// Waiting for the daemon
// ---------------------------------------------------------------------------

/// A daemon that answers the first probe is used as it is. Otherwise one is
/// started and probed up to 50 times; each unanswered probe leaves one less, and
/// the last one ends the wait. Once the wait has ended nothing follows.
pub proof fn each_probe_leaves_one_less(start: bool, left: u32, started: bool, reachable: bool)
    ensures
        Wait::Probe.after(true) == (Wait::Ready { started: false }),
        Wait::Probe.after(false) == (Wait::Poll { start: true, left: 50 }),
        (Wait::Poll { start, left }).after(true) == (Wait::Ready { started: true }),
        left > 1 ==> (Wait::Poll { start, left }).after(false) == (Wait::Poll {
            start: false,
            left: (left - 1) as u32,
        }),
        left <= 1 ==> (Wait::Poll { start, left }).after(false) == Wait::GiveUp,
        (Wait::Ready { started }).after(reachable) == (Wait::Ready { started }),
        Wait::GiveUp.after(reachable) == Wait::GiveUp,
{
}

/// The client sleeps for five seconds in all while it waits for a daemon that it
/// has started, gives each probe 300 milliseconds, and gives its request five
/// seconds.
pub proof fn client_waits_five_seconds()
    ensures
        POLL_ATTEMPTS * POLL_INTERVAL_MILLIS == 5000,
        POLL_INTERVAL_MILLIS == 100,
        PROBE_TIMEOUT_MILLIS == 300,
        REQUEST_TIMEOUT_SECS == 5,
{
}

// ---------------------------------------------------------------------------
// Views
// ---------------------------------------------------------------------------

/// The model of an action shows each of its fields, and every action carries its
/// address.
pub proof fn action_is_shown_in_full(action: Action)
    ensures
        match action {
            Action::Serve { bind } => action@ == (ActionView::Serve { bind: bind@ })
                && action@.bind() == bind@,
            Action::Register { bind, name, url, description } => action@ == (ActionView::Register {
                bind: bind@,
                name: name@,
                url: url@,
                description: description@,
            }) && action@.bind() == bind@,
            Action::Unregister { bind, id } => action@ == (ActionView::Unregister {
                bind: bind@,
                id,
            }) && action@.bind() == bind@,
        },
{
}

/// The model of an outcome shows the action, or why there is none.
pub proof fn outcome_is_shown_in_full(outcome: Result<Action, Stop>)
    ensures
        match outcome {
            Ok(action) => crate::inputs::cli::outcome_view(outcome) == Ok::<ActionView, StopView>(
                action@,
            ),
            Err(Stop::Help) => crate::inputs::cli::outcome_view(outcome) == Err::<
                ActionView,
                StopView,
            >(StopView::Help),
            Err(Stop::Usage(text)) => crate::inputs::cli::outcome_view(outcome) == Err::<
                ActionView,
                StopView,
            >(StopView::Usage(text@)),
        },
{
}

/// The model of a stop shows its text.
pub proof fn stop_is_shown_in_full(stop: Stop)
    ensures
        stop is Help ==> stop@ == StopView::Help,
        stop is Usage ==> stop@ == StopView::Usage((stop->Usage_0)@),
{
}

} // verus!
