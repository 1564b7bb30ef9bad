//! The command line.
//!
//! `switchelo` with no subcommand runs the daemon. `switchelo
//! register|unregister ...` acts as a *client*: it makes sure a daemon is
//! running, starting one in the background if not, and then sends the request to
//! it over HTTP. This module holds what the command line decides: what an
//! invocation asks for, which address the client dials, what it sends, what it
//! makes of the answer, and how long it waits for a daemon.

use vstd::prelude::*;

use crate::json;
use crate::text::{
    chars_of, concat2, concat3, concat4, parse_u64, starts_with, text_eq, u64_text,
};

verus! {

// ---------------------------------------------------------------------------
// What the command line says
// ---------------------------------------------------------------------------

pub const HELP: &'static str = "\
switchelo — a dynamic service registry and reverse proxy

USAGE:
    switchelo [--bind <ADDR>]                       Run the daemon
    switchelo register <NAME> <URL> [DESCRIPTION]   Register a service
    switchelo unregister <ID>                       Deregister a service

The register/unregister subcommands auto-start the daemon in the background if
one is not already running, then send the request over HTTP.

OPTIONS:
    -b, --bind <ADDR>   Daemon listen/connect address (default: 0.0.0.0:8080, or $BIND)
    -h, --help          Print this help and exit

ENVIRONMENT:
    BIND        Default address.
    RUST_LOG    Log filter (default: switchelo=info).

EXAMPLES:
    switchelo
    switchelo register api http://127.0.0.1:8081 \"main api\"
    switchelo unregister 0";

/// The address that the daemon binds where neither an option nor the
/// environment names one.
pub const DEFAULT_BIND: &'static str = "0.0.0.0:8080";

/// The status with which the program exits where it was misused or the client
/// failed.
pub const FAILURE_STATUS: i32 = 2;

/// What the invocation asked switchelo to do.
#[derive(Debug)]
pub enum Action {
    /// Run the daemon (HTTP server) in the foreground.
    Serve { bind: String },
    /// Register (or refresh) a service against a running daemon.
    Register { bind: String, name: String, url: String, description: String },
    /// Deregister a service by id against a running daemon.
    Unregister { bind: String, id: u64 },
}

/// What an [`Action`] holds.
pub enum ActionView {
    Serve { bind: Seq<char> },
    Register { bind: Seq<char>, name: Seq<char>, url: Seq<char>, description: Seq<char> },
    Unregister { bind: Seq<char>, id: u64 },
}

impl View for Action {
    type V = ActionView;

    open spec fn view(&self) -> ActionView {
        match self {
            Action::Serve { bind } => ActionView::Serve { bind: bind@ },
            Action::Register { bind, name, url, description } => ActionView::Register {
                bind: bind@,
                name: name@,
                url: url@,
                description: description@,
            },
            Action::Unregister { bind, id } => ActionView::Unregister { bind: bind@, id: *id },
        }
    }
}

impl ActionView {
    /// The bind/connect address carried by every action.
    pub open spec fn bind(self) -> Seq<char> {
        match self {
            ActionView::Serve { bind } => bind,
            ActionView::Register { bind, .. } => bind,
            ActionView::Unregister { bind, .. } => bind,
        }
    }
}

/// Why an invocation ends without an action.
#[derive(Debug)]
pub enum Stop {
    /// The help was asked for.
    Help,
    /// The arguments are misused; the text says how.
    Usage(String),
}

/// What a [`Stop`] holds.
pub enum StopView {
    Help,
    Usage(Seq<char>),
}

impl Stop {
    /// The status with which the program exits.
    pub open spec fn status(self) -> i32 {
        match self {
            Stop::Help => 0,
            Stop::Usage(_) => FAILURE_STATUS,
        }
    }

    /// The status with which the program exits.
    pub fn exit_status(&self) -> (r: i32)
        ensures
            r == self.status(),
    {
        match self {
            Stop::Help => 0,
            Stop::Usage(_) => FAILURE_STATUS,
        }
    }

    /// What the program prints before it exits: the help, or the error.
    pub fn text(&self) -> (r: String)
        ensures
            r@ == match self@ {
                StopView::Help => HELP@,
                StopView::Usage(text) => "error: "@ + text,
            },
    {
        match self {
            Stop::Help => HELP.to_owned(),
            Stop::Usage(text) => error_line(text.as_str()),
        }
    }
}

/// What the program prints where it fails with `message`.
pub fn error_line(message: &str) -> (r: String)
    ensures
        r@ == "error: "@ + message@,
{
    concat2("error: ", message)
}

impl View for Stop {
    type V = StopView;

    open spec fn view(&self) -> StopView {
        match self {
            Stop::Help => StopView::Help,
            Stop::Usage(text) => StopView::Usage(text@),
        }
    }
}

/// The outcome of parsing, with every text as its characters.
pub open spec fn outcome_view(r: Result<Action, Stop>) -> Result<ActionView, StopView> {
    match r {
        Ok(action) => Ok(action@),
        Err(stop) => Err(stop@),
    }
}

/// What the options and the other arguments of an invocation say.
#[verifier::ext_equal]
pub struct Scanned {
    /// The address that the last bind option names.
    pub bind: Option<Seq<char>>,
    /// The arguments that belong to no option.
    pub positional: Seq<Seq<char>>,
}

/// `arg` asks for the help.
pub open spec fn is_help(arg: Seq<char>) -> bool {
    arg == "-h"@ || arg == "--help"@
}

/// `arg` announces an address.
pub open spec fn is_bind(arg: Seq<char>) -> bool {
    arg == "-b"@ || arg == "--bind"@
}

/// `arg` has the form of an option.
pub open spec fn is_option(arg: Seq<char>) -> bool {
    "-"@.is_prefix_of(arg)
}

/// The usage error for a bind option at the end of the arguments.
pub open spec fn bind_usage() -> StopView {
    StopView::Usage("--bind requires an address"@)
}

/// The usage error for an option that does not exist.
pub open spec fn unknown_option(arg: Seq<char>) -> StopView {
    StopView::Usage("unknown option: "@ + arg + "\n\n"@ + HELP@)
}

/// The usage error for an incomplete `register`.
pub open spec fn register_usage() -> StopView {
    StopView::Usage("register requires <NAME> <URL> [DESCRIPTION]"@)
}

/// The usage error for an `unregister` without a number.
pub open spec fn unregister_usage() -> StopView {
    StopView::Usage("unregister requires a numeric <ID>"@)
}

/// The usage error for a subcommand that does not exist.
pub open spec fn unknown_subcommand(arg: Seq<char>) -> StopView {
    StopView::Usage("unknown subcommand: "@ + arg + "\n\n"@ + HELP@)
}

/// What the arguments `args` say: options are taken out, wherever they stand,
/// and the leftmost request for help or misuse of an option ends the scan.
pub open spec fn scan(args: Seq<Seq<char>>) -> Result<Scanned, StopView>
    decreases args.len(),
{
    if args.len() == 0 {
        Ok(Scanned { bind: None, positional: seq![] })
    } else if is_help(args[0]) {
        Err(StopView::Help)
    } else if is_bind(args[0]) {
        if args.len() == 1 {
            Err(bind_usage())
        } else {
            scanned_before(Some(args[1]), seq![], scan(args.skip(2)))
        }
    } else if is_option(args[0]) {
        Err(unknown_option(args[0]))
    } else {
        scanned_before(None, seq![args[0]], scan(args.skip(1)))
    }
}

/// What arguments say that name the address `bind` and the arguments
/// `positional`, and are followed by arguments that say `rest`: a later address
/// overrides an earlier one.
pub open spec fn scanned_before(
    bind: Option<Seq<char>>,
    positional: Seq<Seq<char>>,
    rest: Result<Scanned, StopView>,
) -> Result<Scanned, StopView> {
    match rest {
        Err(stop) => Err(stop),
        Ok(s) => Ok(
            Scanned {
                bind: if s.bind is Some {
                    s.bind
                } else {
                    bind
                },
                positional: positional + s.positional,
            },
        ),
    }
}

/// The address of an invocation: the one that an option names, else the one of
/// the environment, else the default.
pub open spec fn chosen_bind(option: Option<Seq<char>>, env: Option<Seq<char>>) -> Seq<char> {
    match (option, env) {
        (Some(bind), _) => bind,
        (None, Some(bind)) => bind,
        (None, None) => DEFAULT_BIND@,
    }
}

/// What the positional arguments ask for.
pub open spec fn requested(bind: Seq<char>, positional: Seq<Seq<char>>) -> Result<
    ActionView,
    StopView,
> {
    if positional.len() == 0 {
        Ok(ActionView::Serve { bind })
    } else if positional[0] == "register"@ {
        if positional.len() < 3 {
            Err(register_usage())
        } else {
            Ok(
                ActionView::Register {
                    bind,
                    name: positional[1],
                    url: positional[2],
                    description: if positional.len() > 3 {
                        positional[3]
                    } else {
                        seq![]
                    },
                },
            )
        }
    } else if positional[0] == "unregister"@ {
        if positional.len() > 1 && crate::text::u64_of_text(positional[1]) is Some {
            Ok(
                ActionView::Unregister {
                    bind,
                    id: crate::text::u64_of_text(positional[1])->0,
                },
            )
        } else {
            Err(unregister_usage())
        }
    } else {
        Err(unknown_subcommand(positional[0]))
    }
}

/// What the arguments `args` ask for where the environment names the address
/// `env`.
pub open spec fn parsed(args: Seq<Seq<char>>, env: Option<Seq<char>>) -> Result<
    ActionView,
    StopView,
> {
    match scan(args) {
        Err(stop) => Err(stop),
        Ok(s) => requested(chosen_bind(s.bind, env), s.positional),
    }
}

/// The usage error with the text `text`.
fn usage(text: &str) -> (r: Stop)
    ensures
        r@ == StopView::Usage(text@),
{
    Stop::Usage(text.to_owned())
}

/// What the positional arguments ask for.
fn request(bind: String, positional: &Vec<String>) -> (r: Result<Action, Stop>)
    ensures
        outcome_view(r) == requested(bind@, crate::text::texts(positional@)),
{
    if positional.len() == 0 {
        return Ok(Action::Serve { bind });
    }
    assert(forall|i: int|
        0 <= i < positional@.len() ==> crate::text::texts(positional@)[i] == (#[trigger] positional@[i])@);
    let command: &str = positional[0].as_str();
    if text_eq(command, "register") {
        if positional.len() < 3 {
            return Err(usage("register requires <NAME> <URL> [DESCRIPTION]"));
        }
        let description: String = if positional.len() > 3 {
            positional[3].clone()
        } else {
            String::new()
        };
        Ok(
            Action::Register {
                bind,
                name: positional[1].clone(),
                url: positional[2].clone(),
                description,
            },
        )
    } else if text_eq(command, "unregister") {
        if positional.len() > 1 {
            if let Some(id) = parse_u64(positional[1].as_str()) {
                return Ok(Action::Unregister { bind, id });
            }
        }
        Err(usage("unregister requires a numeric <ID>"))
    } else {
        Err(Stop::Usage(concat4("unknown subcommand: ", command, "\n\n", HELP)))
    }
}

impl Action {
    /// The bind/connect address carried by every action.
    pub fn bind(&self) -> (r: &str)
        ensures
            r@ == self@.bind(),
    {
        match self {
            Action::Serve { bind } => bind.as_str(),
            Action::Register { bind, .. } => bind.as_str(),
            Action::Unregister { bind, .. } => bind.as_str(),
        }
    }

    /// What the arguments `args` (without the program's name) ask for, where the
    /// environment names the address `bind_env`.
    pub fn parse(args: &Vec<String>, bind_env: Option<String>) -> (r: Result<Action, Stop>)
        ensures
            outcome_view(r) == parsed(crate::text::texts(args@), crate::text::optional_text(bind_env)),
    {
        let ghost all = crate::text::texts(args@);
        let ghost env = crate::text::optional_text(bind_env);
        let mut bind: String = match bind_env {
            Some(bind) => bind,
            None => DEFAULT_BIND.to_owned(),
        };
        let ghost mut option: Option<Seq<char>> = None;
        let mut positional: Vec<String> = Vec::new();
        let mut i: usize = 0;
        assert(all.skip(0) == all);
        assert(scan(all) == scanned_before(None, crate::text::texts(positional@), scan(all))) by {
            if let Ok(s) = scan(all) {
                assert(crate::text::texts(positional@) + s.positional == s.positional);
            }
        }
        while i < args.len()
            invariant
                i <= args.len(),
                all == crate::text::texts(args@),
                bind@ == chosen_bind(option, env),
                scan(all) == scanned_before(option, crate::text::texts(positional@), scan(all.skip(i as int))),
            decreases args.len() - i,
        {
            let arg: &str = args[i].as_str();
            let ghost rest = all.skip(i as int);
            assert(rest.len() > 0 && rest[0] == arg@);
            if text_eq(arg, "-h") || text_eq(arg, "--help") {
                return Err(Stop::Help);
            }
            if text_eq(arg, "-b") || text_eq(arg, "--bind") {
                if args.len() - i < 2 {
                    return Err(usage("--bind requires an address"));
                }
                bind = args[i + 1].clone();
                proof {
                    assert(rest[1] == args@[i + 1]@);
                    assert(rest.skip(2) == all.skip(i + 2));
                    option = Some(bind@);
                    if let Ok(s) = scan(all.skip(i + 2)) {
                        assert(crate::text::texts(positional@) + (Seq::<Seq<char>>::empty() + s.positional)
                            == crate::text::texts(positional@) + s.positional);
                    }
                }
                i = i + 2;
            } else if starts_with(arg, "-") {
                return Err(Stop::Usage(concat4("unknown option: ", arg, "\n\n", HELP)));
            } else {
                let ghost before = crate::text::texts(positional@);
                positional.push(args[i].clone());
                proof {
                    assert(rest.skip(1) == all.skip(i + 1));
                    assert(crate::text::texts(positional@) == before.push(arg@));
                    if let Ok(s) = scan(all.skip(i + 1)) {
                        assert(before + (seq![arg@] + s.positional) == before.push(arg@)
                            + s.positional);
                    }
                }
                i = i + 1;
            }
        }
        assert(all.skip(i as int).len() == 0);
        assert(crate::text::texts(positional@) + Seq::<Seq<char>>::empty() == crate::text::texts(positional@));
        request(bind, &positional)
    }
}

// ---------------------------------------------------------------------------
// Where the client finds the daemon
// ---------------------------------------------------------------------------

/// The position of the last colon of `s`, or -1 where there is none.
pub open spec fn last_colon(s: Seq<char>) -> int
    decreases s.len(),
{
    if s.len() == 0 {
        -1
    } else if s.last() == ':' {
        s.len() - 1
    } else {
        last_colon(s.drop_last())
    }
}

/// `host` stands for every interface of the machine: a daemon can bind it, but
/// a client cannot dial it.
pub open spec fn is_wildcard_host(host: Seq<char>) -> bool {
    host == ""@ || host == "0.0.0.0"@ || host == "::"@ || host == "[::]"@
}

/// The address `bind` names a port. A colon inside a wildcard host that stands
/// alone announces none.
pub open spec fn names_port(bind: Seq<char>) -> bool {
    !is_wildcard_host(bind) && last_colon(bind) >= 0
}

/// The host of the address `bind`: what stands before the colon of its port, or
/// all of it where it names no port.
pub open spec fn bind_host(bind: Seq<char>) -> Seq<char> {
    if names_port(bind) {
        bind.take(last_colon(bind))
    } else {
        bind
    }
}

/// The port of the address `bind`, or the default port where it names none.
pub open spec fn bind_port(bind: Seq<char>) -> Seq<char> {
    if names_port(bind) {
        bind.skip(last_colon(bind) + 1)
    } else {
        "8080"@
    }
}

/// The host that a client dials to reach a daemon bound to `bind`.
pub open spec fn dialed_host(bind: Seq<char>) -> Seq<char> {
    if is_wildcard_host(bind_host(bind)) {
        "127.0.0.1"@
    } else {
        bind_host(bind)
    }
}

/// The base URL of a daemon bound to `bind`, as a client dials it.
pub open spec fn base_url(bind: Seq<char>) -> Seq<char> {
    "http://"@ + dialed_host(bind) + ":"@ + bind_port(bind)
}

/// The last colon of `s` is the last position that holds one.
pub proof fn last_colon_is_last(s: Seq<char>)
    ensures
        -1 <= last_colon(s) < s.len(),
        last_colon(s) >= 0 ==> s[last_colon(s)] == ':',
        forall|i: int| last_colon(s) < i < s.len() ==> s[i] != ':',
    decreases s.len(),
{
    if s.len() > 0 && s.last() != ':' {
        last_colon_is_last(s.drop_last());
        assert forall|i: int| last_colon(s) < i < s.len() implies s[i] != ':' by {
            if i < s.len() - 1 {
                assert(s[i] == s.drop_last()[i]);
            }
        }
    }
}

/// `host` stands for every interface of the machine.
fn wildcard_host(host: &str) -> (r: bool)
    ensures
        r == is_wildcard_host(host@),
{
    text_eq(host, "") || text_eq(host, "0.0.0.0") || text_eq(host, "::") || text_eq(host, "[::]")
}

/// Map a bind address to a client-connectable base URL. A wildcard host
/// (`0.0.0.0` / `[::]`) is replaced with loopback.
pub fn client_base_url(bind: &str) -> (r: String)
    ensures
        r@ == base_url(bind@),
{
    if wildcard_host(bind) {
        return concat4("http://", "127.0.0.1", ":", "8080");
    }
    let chars: Vec<char> = chars_of(bind);
    let mut n: usize = chars.len();
    assert(bind@.take(n as int) == bind@);
    while n > 0 && chars[n - 1] != ':'
        invariant
            chars@ == bind@,
            n <= chars.len(),
            last_colon(bind@) == last_colon(bind@.take(n as int)),
        decreases n,
    {
        assert(bind@.take(n as int).drop_last() == bind@.take(n - 1));
        n = n - 1;
    }
    let (host, port): (&str, &str) = if n == 0 {
        (bind, "8080")
    } else {
        assert(bind@.subrange(0, n - 1) == bind@.take(n - 1));
        assert(bind@.subrange(n as int, bind@.len() as int) == bind@.skip(n as int));
        (bind.substring_char(0, n - 1), bind.substring_char(n, chars.len()))
    };
    let dialed: &str = if wildcard_host(host) {
        "127.0.0.1"
    } else {
        host
    };
    concat4("http://", dialed, ":", port)
}

/// The URL that tells whether a daemon answers at `base`.
pub fn probe_url(base: &str) -> (r: String)
    ensures
        r@ == base@ + "/list"@,
{
    concat2(base, "/list")
}

// ---------------------------------------------------------------------------
// What the client sends, and what it makes of the answer
// ---------------------------------------------------------------------------

/// A JSON request that the client posts.
#[derive(Debug)]
pub struct ClientRequest {
    pub url: String,
    pub body: String,
}

/// The URL to which the client posts the request of `action`.
pub open spec fn request_url(action: ActionView) -> Seq<char> {
    match action {
        ActionView::Unregister { bind, .. } => base_url(bind) + "/unregistry"@,
        _ => base_url(action.bind()) + "/registry"@,
    }
}

/// The JSON body that the client posts for `action`.
pub open spec fn request_body(action: ActionView) -> Seq<char> {
    match action {
        ActionView::Register { name, url, description, .. } => json::strings_object_json(
            "description"@,
            description,
            "name"@,
            name,
            "url"@,
            url,
        ),
        ActionView::Unregister { id, .. } => json::number_object_json("id"@, id),
        ActionView::Serve { .. } => arbitrary(),
    }
}

/// The body `body` of the request for `action` reads as what the action says.
pub open spec fn body_carries(body: Seq<char>, action: ActionView) -> bool {
    match action {
        ActionView::Register { name, url, description, .. } => {
            &&& json::field_json(body, "name"@) == Some(json::string_json(name))
            &&& json::field_json(body, "url"@) == Some(json::string_json(url))
            &&& json::field_json(body, "description"@) == Some(json::string_json(description))
        },
        ActionView::Unregister { id, .. } => json::field_json(body, "id"@) == Some(
            crate::text::decimal(id as nat),
        ),
        ActionView::Serve { .. } => true,
    }
}

/// The request that the client posts for `action`. Running the daemon is no
/// request to one.
pub fn client_request(action: &Action) -> (r: ClientRequest)
    requires
        !(action@ is Serve),
    ensures
        r.url@ == request_url(action@),
        r.body@ == request_body(action@),
        body_carries(r.body@, action@),
{
    let base: String = client_base_url(action.bind());
    match action {
        Action::Unregister { id, .. } => {
            proof {
                reveal_strlit("id");
                json::not_reserved("id"@);
            }
            ClientRequest {
                url: base.concat("/unregistry"),
                body: json::number_object("id", *id),
            }
        },
        Action::Register { name, url, description, .. } => {
            proof {
                reveal_strlit("name");
                reveal_strlit("url");
                reveal_strlit("description");
                json::not_reserved("description"@);
            }
            ClientRequest {
                url: base.concat("/registry"),
                body: json::strings_object(
                    "description",
                    description.as_str(),
                    "name",
                    name.as_str(),
                    "url",
                    url.as_str(),
                ),
            }
        },
        Action::Serve { .. } => vstd::pervasive::unreached(),
    }
}

/// The field of a daemon's response, or the failure that it is missing.
pub open spec fn field_or_failure(response: Seq<char>, field: Option<Seq<char>>) -> Result<
    Seq<char>,
    Seq<char>,
> {
    match field {
        Some(f) => Ok(f),
        None => Err("unexpected daemon response: "@ + response),
    }
}

/// Extract a top-level field from a JSON object response as a string. The `Err`
/// is the message to fail with.
pub fn parse_field(text: &str, key: &str) -> (r: Result<String, String>)
    ensures
        crate::text::texts_of_result(r) == field_or_failure(text@, json::field_json(text@, key@)),
{
    match json::field(text, key) {
        Some(f) => Ok(f),
        None => Err(concat2("unexpected daemon response: ", text)),
    }
}

/// What the client prints once `name` at `url` is registered as `id`.
pub open spec fn registered_text(name: Seq<char>, url: Seq<char>, id: Seq<char>) -> Seq<char> {
    "registered '"@ + name + "' -> "@ + url + " (id="@ + id + "); route: /"@ + name + "/"@ + id
        + "/"@
}

/// What the client prints once the daemon answered a deregistration of `id`
/// with `success`.
pub open spec fn unregistered_text(id: u64, success: Seq<char>) -> Seq<char> {
    let id = crate::text::decimal(id as nat);
    if success == "true"@ {
        "unregistered id="@ + id
    } else {
        "no service with id="@ + id + " was registered"@
    }
}

/// What the client prints once `name` at `url` is registered as `id`, the JSON
/// text of the id that the daemon answered.
pub fn registered_line(name: &str, url: &str, id: &str) -> (r: String)
    ensures
        r@ == registered_text(name@, url@, id@),
{
    concat4("registered '", name, "' -> ", url).concat(" (id=").concat(id).concat(
        "); route: /",
    ).concat(name).concat("/").concat(id).concat("/")
}

/// What the client prints once the daemon answered a deregistration of `id`
/// with `success`, the JSON text of its answer.
pub fn unregistered_line(id: u64, success: &str) -> (r: String)
    ensures
        r@ == unregistered_text(id, success@),
{
    let text: String = u64_text(id);
    if text_eq(success, "true") {
        concat2("unregistered id=", text.as_str())
    } else {
        concat3("no service with id=", text.as_str(), " was registered")
    }
}

/// The field of the daemon's response that the client looks at.
pub open spec fn reply_key(action: ActionView) -> Seq<char> {
    match action {
        ActionView::Unregister { .. } => "success"@,
        _ => "id"@,
    }
}

/// What the client prints for `action` where the field of the response reads
/// `field`.
pub open spec fn reply_text(action: ActionView, field: Seq<char>) -> Seq<char> {
    match action {
        ActionView::Register { name, url, .. } => registered_text(name, url, field),
        ActionView::Unregister { id, .. } => unregistered_text(id, field),
        ActionView::Serve { .. } => arbitrary(),
    }
}

/// What the client prints, or fails with, where the daemon answered the request
/// for `action` with `response`.
pub open spec fn reply_outcome(action: ActionView, response: Seq<char>) -> Result<
    Seq<char>,
    Seq<char>,
> {
    match field_or_failure(response, json::field_json(response, reply_key(action))) {
        Ok(field) => Ok(reply_text(action, field)),
        Err(message) => Err(message),
    }
}

/// What the client prints where the daemon answered the request for `action`
/// with `response`. The `Err` is the message to fail with.
pub fn client_reply(action: &Action, response: &str) -> (r: Result<String, String>)
    requires
        !(action@ is Serve),
    ensures
        crate::text::texts_of_result(r) == reply_outcome(action@, response@),
{
    match action {
        Action::Unregister { id, .. } => {
            match parse_field(response, "success") {
                Ok(success) => Ok(unregistered_line(*id, success.as_str())),
                Err(message) => Err(message),
            }
        },
        Action::Register { name, url, .. } => {
            match parse_field(response, "id") {
                Ok(id) => Ok(registered_line(name.as_str(), url.as_str(), id.as_str())),
                Err(message) => Err(message),
            }
        },
        Action::Serve { .. } => vstd::pervasive::unreached(),
    }
}

// ---------------------------------------------------------------------------
// Starting the daemon and waiting for it
// ---------------------------------------------------------------------------

/// How long, in milliseconds, the client waits for an answer to a probe.
pub const PROBE_TIMEOUT_MILLIS: u64 = 300;

/// How long, in milliseconds, the client waits between two probes.
pub const POLL_INTERVAL_MILLIS: u64 = 100;

/// How often the client probes a daemon that it has started.
pub const POLL_ATTEMPTS: u32 = 50;

/// How long, in seconds, the client waits for the answer to its request.
pub const REQUEST_TIMEOUT_SECS: u64 = 5;

/// What the client says before it starts a daemon.
pub const STARTING_TEXT: &'static str = "daemon not running; starting it in the background...";

/// The client's way to a running daemon: what it does next.
#[derive(Clone, Copy, Debug, PartialEq, Eq, Structural)]
pub enum Wait {
    /// Probe whether a daemon answers.
    Probe,
    /// Start a daemon if `start` is set, sleep, and probe; `left` probes are
    /// left, this one included.
    Poll { start: bool, left: u32 },
    /// A daemon answers; `started` tells whether the client has started it.
    Ready { started: bool },
    /// The daemon that the client has started did not answer in time.
    GiveUp,
}

impl Wait {
    /// What follows a probe that was answered or not.
    pub open spec fn after(self, reachable: bool) -> Wait {
        match self {
            Wait::Probe => if reachable {
                Wait::Ready { started: false }
            } else {
                Wait::Poll { start: true, left: POLL_ATTEMPTS }
            },
            Wait::Poll { left, .. } => if reachable {
                Wait::Ready { started: true }
            } else if left <= 1 {
                Wait::GiveUp
            } else {
                Wait::Poll { start: false, left: (left - 1) as u32 }
            },
            _ => self,
        }
    }

    /// What follows a probe that was answered (`reachable`) or not. Once the
    /// client is ready or has given up nothing follows.
    pub fn next(self, reachable: bool) -> (r: Wait)
        ensures
            r == self.after(reachable),
    {
        match self {
            Wait::Probe => {
                if reachable {
                    Wait::Ready { started: false }
                } else {
                    Wait::Poll { start: true, left: POLL_ATTEMPTS }
                }
            },
            Wait::Poll { left, .. } => {
                if reachable {
                    Wait::Ready { started: true }
                } else if left <= 1 {
                    Wait::GiveUp
                } else {
                    Wait::Poll { start: false, left: left - 1 }
                }
            },
            _ => self,
        }
    }
}

/// What the client says once the daemon that it has started answers.
pub fn ready_line(bind: &str) -> (r: String)
    ensures
        r@ == "daemon ready on "@ + bind@,
{
    concat2("daemon ready on ", bind)
}

/// The arguments with which the client starts a daemon bound to `bind`.
pub fn daemon_args(bind: &str) -> (r: Vec<String>)
    ensures
        crate::text::texts(r@) == seq!["--bind"@, bind@],
{
    let mut args: Vec<String> = Vec::new();
    args.push("--bind".to_owned());
    args.push(bind.to_owned());
    assert(crate::text::texts(args@) =~= seq!["--bind"@, bind@]);
    args
}

/// Why the client fails; the errors of the system and of the HTTP client are
/// given by their text.
#[derive(Debug)]
pub enum ClientFailure {
    /// The executable to start is not known.
    NoExecutable { error: String },
    /// The daemon could not be started.
    NotStarted { error: String },
    /// The daemon was started and did not answer in time.
    NotReady,
    /// The request could not be sent.
    Request { url: String, error: String },
    /// The response could not be read.
    Response { url: String, error: String },
}

impl ClientFailure {
    /// The message that the client fails with.
    pub open spec fn text(self) -> Seq<char> {
        match self {
            ClientFailure::NoExecutable { error } => "cannot locate switchelo executable: "@
                + error@,
            ClientFailure::NotStarted { error } => "failed to start daemon: "@ + error@,
            ClientFailure::NotReady => "daemon did not become ready in time"@,
            ClientFailure::Request { url, error } => "request to "@ + url@ + " failed: "@ + error@,
            ClientFailure::Response { url, error } => "reading response from "@ + url@
                + " failed: "@ + error@,
        }
    }

    /// The message that the client fails with.
    pub fn message(&self) -> (r: String)
        ensures
            r@ == self.text(),
    {
        match self {
            ClientFailure::NoExecutable { error } => concat2(
                "cannot locate switchelo executable: ",
                error.as_str(),
            ),
            ClientFailure::NotStarted { error } => concat2(
                "failed to start daemon: ",
                error.as_str(),
            ),
            ClientFailure::NotReady => "daemon did not become ready in time".to_owned(),
            ClientFailure::Request { url, error } => concat4(
                "request to ",
                url.as_str(),
                " failed: ",
                error.as_str(),
            ),
            ClientFailure::Response { url, error } => concat4(
                "reading response from ",
                url.as_str(),
                " failed: ",
                error.as_str(),
            ),
        }
    }
}

} // verus!
