//! What holds of the library as a whole: laws that relate several operations,
//! stated over the models that the operations' contracts use.
//!
//! The modules below say of each part what its operations come to in the end, in
//! terms of characters, arguments and services alone.

pub mod cli;
pub mod http;
pub mod registry;
pub mod text;
pub mod wire;

use vstd::prelude::*;

use crate::daemon::{Registry, Service, ServiceView, MAX_FAILURES};
use crate::inputs::cli::{ActionView, StopView, Wait, POLL_ATTEMPTS};
use crate::inputs::http::{ForwardingView, StatusCode};
use crate::inputs::wire::{RegisterRes, ServiceGroup, UnregisterRes};

verus! {

// ---------------------------------------------------------------------------
// The registry
// ---------------------------------------------------------------------------

/// Registering keeps the registry well-formed.
pub proof fn register_keeps_wf(
    r: Registry,
    name: Seq<char>,
    url: Seq<char>,
    description: Seq<char>,
)
    requires
        r.wf(),
    ensures
        r.register(name, url, description).wf(),
{
    crate::text::trimmed_ends_without_slash(url);
    reveal_strlit("http://");
    reveal_strlit("https://");
}

/// A registration that is answered with an id stores exactly what was reported,
/// under that id, with a clean failure streak.
pub proof fn registered_service_is_found(
    r: Registry,
    name: Seq<char>,
    url: Seq<char>,
    description: Seq<char>,
    id: u64,
)
    requires
        r.wf(),
        r.register_result(url) == Ok::<u64, Seq<char>>(id),
    ensures
        r.register(name, url, description).get(id) == Some(
            ServiceView { name, url: crate::text::trimmed(url), description, failures: 0 },
        ),
{
}

/// Registration is idempotent by address: a second report from an address that
/// is the same up to trailing slashes is answered with the same id, hands out no
/// new id, and leaves the registry as if only the second report had come.
pub proof fn register_is_idempotent_by_url(
    r: Registry,
    name: Seq<char>,
    url: Seq<char>,
    description: Seq<char>,
    name2: Seq<char>,
    url2: Seq<char>,
    description2: Seq<char>,
)
    requires
        r.wf(),
        crate::text::trimmed(url2) == crate::text::trimmed(url),
        r.register_result(url) is Ok,
    ensures
        ({
            let once = r.register(name, url, description);
            let twice = once.register(name2, url2, description2);
            &&& once.register_result(url2) == r.register_result(url)
            &&& twice.next_id == once.next_id
            &&& twice.services.dom() == once.services.dom()
            &&& twice == r.register(name2, url, description2)
        }),
{
    let base = crate::text::trimmed(url);
    let id = r.register_result(url)->Ok_0;
    let once = r.register(name, url, description);
    let twice = once.register(name2, url2, description2);
    register_keeps_wf(r, name, url, description);
    assert(once.services.contains_key(id) && once.services[id].url == base);
    assert(once.has_url(base));
    assert(once.id_of_url(base) == id);
    assert(twice.services =~= r.register(name2, url, description2).services);
    assert(twice.services.dom() =~= once.services.dom());
}

/// One more slash at the end of the address makes no difference.
pub proof fn trailing_slash_makes_no_difference(
    r: Registry,
    name: Seq<char>,
    url: Seq<char>,
    description: Seq<char>,
)
    ensures
        r.register_result(url.push('/')) == r.register_result(url),
        r.register(name, url.push('/'), description) == r.register(name, url, description),
{
    crate::text::trimmed_ignores_trailing_slash(url);
}

/// A registration is refused if and only if the address, without the slashes at
/// its end, has neither of the two schemes, and a refusal changes nothing.
pub proof fn refused_registration_changes_nothing(
    r: Registry,
    name: Seq<char>,
    url: Seq<char>,
    description: Seq<char>,
)
    ensures
        r.register_result(url) is Err <==> !("http://"@.is_prefix_of(crate::text::trimmed(url))
            || "https://"@.is_prefix_of(crate::text::trimmed(url))),
        r.register_result(url) is Err ==> r.register(name, url, description) == r,
{
}

/// Every registered id is below the counter: this holds of a new registry and is
/// kept by every operation but a registration with which the counter wraps
/// around.
pub proof fn ids_stay_below_next(
    r: Registry,
    name: Seq<char>,
    url: Seq<char>,
    description: Seq<char>,
    id: u64,
)
    requires
        r.ids_below_next(),
        !r.wraps_around(url),
    ensures
        Registry::empty().ids_below_next(),
        r.register(name, url, description).ids_below_next(),
        r.unregister(id).ids_below_next(),
        r.record_success(id).ids_below_next(),
        r.record_failure(id).ids_below_next(),
{
}

/// Ids are auto-incremented: a registration at a new address is answered with
/// the counter's value, which no registered service has, and advances the
/// counter.
pub proof fn new_address_gets_unused_id(
    r: Registry,
    name: Seq<char>,
    url: Seq<char>,
    description: Seq<char>,
)
    requires
        r.ids_below_next(),
        r.register_result(url) is Ok,
        !r.has_url(crate::text::trimmed(url)),
    ensures
        r.register_result(url) == Ok::<u64, Seq<char>>(r.next_id),
        !r.services.contains_key(r.next_id),
        r.register(name, url, description).next_id == crate::daemon::id_after(r.next_id),
{
}

/// A registration is never answered with an id that was handed out before and is
/// no longer registered, and the counter does not go back unless it wraps around.
/// [`ids_are_never_reused_later`] says the same of any number of operations.
pub proof fn ids_are_never_reused(
    r: Registry,
    name: Seq<char>,
    url: Seq<char>,
    description: Seq<char>,
    id: u64,
)
    requires
        id < r.next_id,
        !r.services.contains_key(id),
    ensures
        r.register_result(url) != Ok::<u64, Seq<char>>(id),
        !r.register(name, url, description).services.contains_key(id),
        !r.wraps_around(url) ==> r.next_id <= r.register(name, url, description).next_id,
{
}

/// One operation on the registry.
pub enum Operation {
    Register { name: Seq<char>, url: Seq<char>, description: Seq<char> },
    Unregister { id: u64 },
    RecordSuccess { id: u64 },
    RecordFailure { id: u64 },
}

impl Operation {
    /// The registry after the operation.
    pub open spec fn apply(self, r: Registry) -> Registry {
        match self {
            Operation::Register { name, url, description } => r.register(name, url, description),
            Operation::Unregister { id } => r.unregister(id),
            Operation::RecordSuccess { id } => r.record_success(id),
            Operation::RecordFailure { id } => r.record_failure(id),
        }
    }

    /// The id counter wraps around with the operation.
    pub open spec fn wraps_around(self, r: Registry) -> bool {
        self matches Operation::Register { url, .. } && r.wraps_around(url)
    }
}

/// The registry after the operations `ops`, one after the other.
pub open spec fn after_all(r: Registry, ops: Seq<Operation>) -> Registry
    decreases ops.len(),
{
    if ops.len() == 0 {
        r
    } else {
        ops.last().apply(after_all(r, ops.drop_last()))
    }
}

/// The id counter does not wrap around with any of the operations `ops`.
pub open spec fn never_wraps(r: Registry, ops: Seq<Operation>) -> bool
    decreases ops.len(),
{
    ops.len() > 0 ==> !ops.last().wraps_around(after_all(r, ops.drop_last())) && never_wraps(
        r,
        ops.drop_last(),
    )
}

/// Whatever operations a new daemon goes through, its registry is well-formed;
/// and, as long as the counter has not wrapped around, every registered id is
/// below the counter.
pub proof fn every_reachable_registry_is_wf(ops: Seq<Operation>)
    ensures
        after_all(Registry::empty(), ops).wf(),
        never_wraps(Registry::empty(), ops) ==> after_all(
            Registry::empty(),
            ops,
        ).ids_below_next(),
    decreases ops.len(),
{
    if ops.len() > 0 {
        every_reachable_registry_is_wf(ops.drop_last());
        let r = after_all(Registry::empty(), ops.drop_last());
        if let Operation::Register { name, url, description } = ops.last() {
            register_keeps_wf(r, name, url, description);
        }
    }
}

/// A deregistered id is never handed out again: once an id below the counter is
/// not registered, it stays so through all further operations, and no
/// registration behind them is answered with it, as long as the counter does
/// not wrap around.
pub proof fn ids_are_never_reused_later(
    r: Registry,
    ops: Seq<Operation>,
    url: Seq<char>,
    id: u64,
)
    requires
        id < r.next_id,
        !r.services.contains_key(id),
        never_wraps(r, ops),
    ensures
        id < r.next_id <= after_all(r, ops).next_id,
        !after_all(r, ops).services.contains_key(id),
        after_all(r, ops).register_result(url) != Ok::<u64, Seq<char>>(id),
    decreases ops.len(),
{
    if ops.len() > 0 {
        ids_are_never_reused_later(r, ops.drop_last(), url, id);
        let before = after_all(r, ops.drop_last());
        if let Operation::Register { name, url, description } = ops.last() {
            ids_are_never_reused(before, name, url, description, id);
        }
    }
}

/// Two registrations at different addresses get different ids, whatever their
/// names: several instances can run under one name.
pub proof fn different_addresses_get_different_ids(
    r: Registry,
    name: Seq<char>,
    url: Seq<char>,
    description: Seq<char>,
    url2: Seq<char>,
    id: u64,
    id2: u64,
)
    requires
        r.wf(),
        r.ids_below_next(),
        crate::text::trimmed(url) != crate::text::trimmed(url2),
        r.register_result(url) == Ok::<u64, Seq<char>>(id),
        r.register(name, url, description).register_result(url2) == Ok::<u64, Seq<char>>(id2),
    ensures
        id != id2,
{
    let once = r.register(name, url, description);
    let base2 = crate::text::trimmed(url2);
    register_keeps_wf(r, name, url, description);
    assert(once.services.contains_key(id));
    if once.has_url(base2) {
        assert(once.services.contains_key(once.id_of_url(base2)));
    }
}

/// An operation on one service leaves every other service as it was.
pub proof fn other_services_stay(
    r: Registry,
    name: Seq<char>,
    url: Seq<char>,
    description: Seq<char>,
    id: u64,
    other: u64,
)
    requires
        other != id,
    ensures
        r.register_result(url) == Ok::<u64, Seq<char>>(id) ==> r.register(
            name,
            url,
            description,
        ).get(other) == r.get(other),
        r.unregister(id).get(other) == r.get(other),
        r.record_success(id).get(other) == r.get(other),
        r.record_failure(id).get(other) == r.get(other),
{
}

/// A deregistered service is gone, and deregistering it again changes nothing.
pub proof fn unregistered_service_is_gone(r: Registry, id: u64)
    ensures
        r.unregister(id).get(id) is None,
        r.unregister(id).unregister(id) == r.unregister(id),
{
    assert(r.unregister(id).unregister(id).services =~= r.unregister(id).services);
}

/// Deregistering a service that a registration has just created restores the
/// services that there were before.
pub proof fn unregister_undoes_register(
    r: Registry,
    name: Seq<char>,
    url: Seq<char>,
    description: Seq<char>,
)
    requires
        r.ids_below_next(),
        r.register_result(url) is Ok,
        !r.has_url(crate::text::trimmed(url)),
    ensures
        r.register(name, url, description).unregister(r.next_id).services == r.services,
{
    assert(r.register(name, url, description).unregister(r.next_id).services =~= r.services);
}

/// A snapshot and single lookups agree: the snapshot holds `id` with what a
/// lookup of `id` gives, and holds it only if the lookup finds something.
pub proof fn snapshot_agrees_with_get(r: Registry, list: Seq<(u64, Service)>, id: u64)
    requires
        r.is_snapshot(list),
    ensures
        match r.get(id) {
            Some(s) => exists|i: int|
                0 <= i < list.len() && (#[trigger] list[i]).0 == id && list[i].1@ == s,
            None => forall|i: int| 0 <= i < list.len() ==> (#[trigger] list[i]).0 != id,
        },
{
    if r.services.contains_key(id) {
        let i = choose|i: int| 0 <= i < list.len() && (#[trigger] list[i]).0 == id;
        assert(list[i].1@ == r.services[id]);
    }
}

/// Two snapshots of one registry are the same, entry by entry.
pub proof fn snapshots_are_the_same(r: Registry, a: Seq<(u64, Service)>, b: Seq<(u64, Service)>)
    requires
        r.is_snapshot(a),
        r.is_snapshot(b),
    ensures
        a.len() == b.len(),
        forall|i: int|
            0 <= i < a.len() ==> (#[trigger] a[i]).0 == (#[trigger] b[i]).0 && a[i].1@ == b[i].1@,
{
    if a.len() <= b.len() {
        snapshot_prefixes_are_the_same(r, a, b, a.len() as int);
        if a.len() < b.len() {
            let last = b[a.len() as int];
            let i = choose|i: int| 0 <= i < a.len() && (#[trigger] a[i]).0 == last.0;
            assert(b[i].0 == a[i].0);
        }
    } else {
        snapshot_prefixes_are_the_same(r, b, a, b.len() as int);
        let last = a[b.len() as int];
        let i = choose|i: int| 0 <= i < b.len() && (#[trigger] b[i]).0 == last.0;
        assert(a[i].0 == b[i].0);
    }
}

/// Two snapshots of one registry begin alike.
proof fn snapshot_prefixes_are_the_same(
    r: Registry,
    a: Seq<(u64, Service)>,
    b: Seq<(u64, Service)>,
    n: int,
)
    requires
        r.is_snapshot(a),
        r.is_snapshot(b),
        0 <= n <= a.len() <= b.len(),
    ensures
        forall|i: int|
            0 <= i < n ==> (#[trigger] a[i]).0 == (#[trigger] b[i]).0 && a[i].1@ == b[i].1@,
    decreases n,
{
    if n > 0 {
        let i = n - 1;
        snapshot_prefixes_are_the_same(r, a, b, i);
        let k = choose|k: int| 0 <= k < b.len() && (#[trigger] b[k]).0 == a[i].0;
        let m = choose|m: int| 0 <= m < a.len() && (#[trigger] a[m]).0 == b[i].0;
        if k < i {
            assert(a[k].0 == b[k].0);
        }
        if m < i {
            assert(a[m].0 == b[m].0);
        }
        assert(b[i].0 <= b[k].0);
        assert(a[i].0 <= a[m].0);
    }
}

// ---------------------------------------------------------------------------
// Failures
// ---------------------------------------------------------------------------

/// The registry after `n` forwarding failures of `id` in a row.
pub open spec fn after_failures(r: Registry, id: u64, n: nat) -> Registry
    decreases n,
{
    if n == 0 {
        r
    } else {
        after_failures(r, id, (n - 1) as nat).record_failure(id)
    }
}

/// A service is evicted by the failure that completes a streak of
/// [`MAX_FAILURES`], and by no earlier one: it survives `n` more failures in a
/// row if and only if its streak stays below the limit.
pub proof fn evicted_exactly_at_the_limit(r: Registry, id: u64, n: nat)
    requires
        r.wf(),
        r.services.contains_key(id),
    ensures
        after_failures(r, id, n).services.contains_key(id) <==> r.services[id].failures + n
            < MAX_FAILURES,
        after_failures(r, id, n).services.contains_key(id) ==> after_failures(r, id, n).services[id]
            == (ServiceView { failures: r.services[id].failures + n, ..r.services[id] }),
        after_failures(r, id, n).failure_evicts(id) <==> r.services[id].failures + n + 1
            == MAX_FAILURES,
    decreases n,
{
    if n > 0 {
        evicted_exactly_at_the_limit(r, id, (n - 1) as nat);
    }
}

/// A success clears the streak: whatever failures came before, it takes
/// [`MAX_FAILURES`] further failures in a row to evict the service.
pub proof fn success_resets_the_streak(r: Registry, id: u64, n: nat)
    requires
        r.wf(),
        r.services.contains_key(id),
    ensures
        after_failures(r.record_success(id), id, n).services.contains_key(id) <==> n < MAX_FAILURES,
{
    let s = r.record_success(id);
    assert(s.wf());
    evicted_exactly_at_the_limit(s, id, n);
}

/// A fresh report is a healthy signal: it clears the streak as a success does.
pub proof fn report_resets_the_streak(
    r: Registry,
    name: Seq<char>,
    url: Seq<char>,
    description: Seq<char>,
    id: u64,
    n: nat,
)
    requires
        r.wf(),
        r.register_result(url) == Ok::<u64, Seq<char>>(id),
    ensures
        after_failures(
            r.register(name, url, description),
            id,
            n,
        ).services.contains_key(id) <==> n < MAX_FAILURES,
{
    register_keeps_wf(r, name, url, description);
    evicted_exactly_at_the_limit(r.register(name, url, description), id, n);
}

/// The outcome of a forward to an id that is not registered is ignored.
pub proof fn unknown_ids_are_ignored(r: Registry, id: u64)
    requires
        !r.services.contains_key(id),
    ensures
        r.record_success(id) == r,
        r.record_failure(id) == r,
        !r.failure_evicts(id),
{
}

// ---------------------------------------------------------------------------
// The HTTP interface
// ---------------------------------------------------------------------------

/// Every registered service stands in exactly one group of a listing, the group
/// of its name, with its address.
pub proof fn each_service_is_listed_once(
    r: Registry,
    groups: Seq<(String, ServiceGroup)>,
    id: u64,
)
    requires
        crate::inputs::http::is_listing(r, groups),
        r.services.contains_key(id),
    ensures
        exists|i: int|
            0 <= i < groups.len() && (#[trigger] groups[i]).0@ == r.services[id].name
                && groups[i].1@.services.contains_key(id) && groups[i].1@.services[id]
                == r.services[id].url,
        forall|i: int, j: int|
            0 <= i < groups.len() && 0 <= j < groups.len() && (
            #[trigger] groups[i]).1@.services.contains_key(id) && (
            #[trigger] groups[j]).1@.services.contains_key(id) ==> i == j,
{
    let name = r.services[id].name;
    assert(crate::inputs::http::has_group(groups, name));
    let i = choose|i: int| 0 <= i < groups.len() && (#[trigger] groups[i]).0@ == name;
    assert(crate::inputs::http::is_group(r, groups[i].0@, groups[i].1@));
    assert(crate::inputs::http::is_instance(r, name, id));
    assert(groups[i].1@.services.contains_key(id));
    assert forall|i: int, j: int|
        0 <= i < groups.len() && 0 <= j < groups.len() && (
        #[trigger] groups[i]).1@.services.contains_key(id) && (
        #[trigger] groups[j]).1@.services.contains_key(id) implies i == j by {
        assert(crate::inputs::http::is_group(r, groups[i].0@, groups[i].1@));
        assert(crate::inputs::http::is_group(r, groups[j].0@, groups[j].1@));
        if i < j {
            assert(groups[i].0@ != groups[j].0@);
        }
        if j < i {
            assert(groups[j].0@ != groups[i].0@);
        }
    }
}

/// No listed instance is made up: what a group holds is registered, under the
/// group's name.
pub proof fn listed_instances_are_registered(
    r: Registry,
    groups: Seq<(String, ServiceGroup)>,
    i: int,
    id: u64,
)
    requires
        crate::inputs::http::is_listing(r, groups),
        0 <= i < groups.len(),
        groups[i].1@.services.contains_key(id),
    ensures
        r.services.contains_key(id),
        r.services[id].name == groups[i].0@,
        r.services[id].url == groups[i].1@.services[id],
{
    assert(crate::inputs::http::is_group(r, groups[i].0@, groups[i].1@));
}

/// The path `/{name}/{id}/{rest}` of a forwarded request.
pub open spec fn request_path(name: Seq<char>, id: u64, rest: Seq<char>) -> Seq<char> {
    route_prefix(name, id) + "/"@ + rest
}

/// The part `/{name}/{id}` of a path that selects the backend.
pub open spec fn route_prefix(name: Seq<char>, id: u64) -> Seq<char> {
    "/"@ + name + "/"@ + crate::text::decimal(id as nat)
}

/// The prefix `/{name}/{id}` is stripped: a request for a path below it goes to
/// the backend's address followed by the rest of the path and the query, and a
/// request for the prefix alone goes to the backend's root.
pub proof fn route_prefix_is_stripped(
    r: Registry,
    name: Seq<char>,
    id: u64,
    rest: Seq<char>,
    query: Option<Seq<char>>,
)
    requires
        r.services.contains_key(id),
        r.services[id].name == name,
    ensures
        ({
            let path = request_path(name, id, rest);
            let stripped = path.skip(route_prefix(name, id).len() as int);
            crate::inputs::http::first_step(r, name, id, rest, query) == ForwardingView::ReadBody {
                id,
                target: r.services[id].url + stripped + crate::inputs::http::query_suffix(query),
            }
        }),
        crate::inputs::http::first_step(r, name, id, seq![], query) == (ForwardingView::ReadBody {
            id,
            target: r.services[id].url + "/"@ + crate::inputs::http::query_suffix(query),
        }),
{
    let prefix = route_prefix(name, id);
    assert(request_path(name, id, rest).skip(prefix.len() as int) =~= "/"@ + rest);
    assert(r.services[id].url + "/"@ + rest =~= r.services[id].url + ("/"@ + rest));
    assert(r.services[id].url + "/"@ + seq![] =~= r.services[id].url + "/"@);
}

/// The query is preserved: it stands, behind a question mark, at the end of the
/// URL to which the same request without a query goes.
pub proof fn query_is_preserved(url: Seq<char>, rest: Seq<char>, query: Seq<char>)
    ensures
        crate::inputs::http::target_url(url, rest, Some(query))
            == crate::inputs::http::target_url(url, rest, None) + "?"@ + query,
{
    assert(crate::inputs::http::target_url(url, rest, Some(query))
        =~= crate::inputs::http::target_url(url, rest, None) + "?"@ + query);
}

/// The address of a registered backend and the path are joined by one slash:
/// the character before the joining slash is none.
pub proof fn target_has_no_double_slash(
    r: Registry,
    id: u64,
    rest: Seq<char>,
    query: Option<Seq<char>>,
)
    requires
        r.wf(),
        r.services.contains_key(id),
    ensures
        ({
            let url = r.services[id].url;
            let target = crate::inputs::http::target_url(url, rest, query);
            &&& url.len() > 0
            &&& target[url.len() as int] == '/'
            &&& target[url.len() - 1] != '/'
        }),
{
    let url = r.services[id].url;
    assert(r.services[id].wf());
    reveal_strlit("http://");
    reveal_strlit("https://");
    reveal_strlit("/");
    let target = crate::inputs::http::target_url(url, rest, query);
    assert(target[url.len() as int] == '/');
    assert(target[url.len() - 1] == url.last());
}

/// A request whose id is unknown, or whose name is not that of the id, is
/// answered with 404.
pub proof fn unknown_route_is_not_found(
    r: Registry,
    name: Seq<char>,
    id: u64,
    rest: Seq<char>,
    query: Option<Seq<char>>,
)
    requires
        !crate::inputs::http::is_instance(r, name, id),
    ensures
        crate::inputs::http::first_step(r, name, id, rest, query) matches ForwardingView::Respond {
            status,
            ..
        } && status.number() == 404,
{
}

/// The registry after a request was sent to the backend `id`, which answered or
/// not: the body is read, and the request is sent.
pub open spec fn after_request(r: Registry, id: u64, target: Seq<char>, answered: bool) -> Registry {
    let read = ForwardingView::ReadBody { id, target };
    let sent = crate::inputs::http::step_after(r, read, true);
    let r1 = crate::inputs::http::registry_after(r, read, true);
    crate::inputs::http::registry_after(r1, sent, answered)
}

/// A request to a backend that answers is relayed, and clears the backend's
/// streak; one to a backend that does not answer gives 502, and counts as a
/// failure of the backend.
pub proof fn request_counts_for_its_backend(
    r: Registry,
    id: u64,
    target: Seq<char>,
    answered: bool,
)
    ensures
        ({
            let sent = crate::inputs::http::step_after(
                r,
                ForwardingView::ReadBody { id, target },
                true,
            );
            let end = crate::inputs::http::step_after(r, sent, answered);
            &&& sent == (ForwardingView::Send { id, target })
            &&& answered ==> end is Relay && after_request(r, id, target, true)
                == r.record_success(id)
            &&& !answered ==> end == ForwardingView::Respond {
                status: StatusCode::BadGateway,
                message: "upstream unavailable"@,
                evicted: r.failure_evicts(id),
            } && after_request(r, id, target, false) == r.record_failure(id)
        }),
{
}

/// A request that does not get as far as sending leaves the registry as it is.
pub proof fn unsent_request_changes_nothing(r: Registry, step: ForwardingView, succeeded: bool)
    requires
        !(step is Send),
    ensures
        crate::inputs::http::registry_after(r, step, succeeded) == r,
{
}

/// Dead backends are removed: once [`MAX_FAILURES`] requests in a row have gone
/// unanswered, the service is no longer registered, and a request to it is
/// answered with 404.
pub proof fn dead_backend_is_removed(
    r: Registry,
    name: Seq<char>,
    id: u64,
    rest: Seq<char>,
    query: Option<Seq<char>>,
)
    requires
        r.wf(),
        r.services.contains_key(id),
    ensures
        ({
            let dead = after_failures(r, id, MAX_FAILURES as nat);
            &&& dead.get(id) is None
            &&& crate::inputs::http::first_step(dead, name, id, rest, query)
                == ForwardingView::Respond {
                status: StatusCode::NotFound,
                message: "service not found"@,
                evicted: false,
            }
        }),
{
    evicted_exactly_at_the_limit(r, id, MAX_FAILURES as nat);
}

// ---------------------------------------------------------------------------
// The command line
// ---------------------------------------------------------------------------

/// A daemon that the client starts binds the address that the client was given,
/// whatever the environment says.
pub proof fn started_daemon_binds_the_clients_address(
    bind: Seq<char>,
    env: Option<Seq<char>>,
)
    ensures
        crate::inputs::cli::parsed(seq!["--bind"@, bind], env) == Ok::<ActionView, StopView>(
            ActionView::Serve { bind },
        ),
{
    reveal_strlit("--bind");
    reveal_strlit("--help");
    reveal_strlit("-h");
    let args = seq!["--bind"@, bind];
    assert("--bind"@[2] != "--help"@[2]);
    assert(args.skip(2) =~= Seq::<Seq<char>>::empty());
    reveal_with_fuel(crate::inputs::cli::scan, 2);
}

/// The bind option overrides the environment.
pub proof fn option_overrides_environment(
    args: Seq<Seq<char>>,
    env: Option<Seq<char>>,
    env2: Option<Seq<char>>,
)
    requires
        crate::inputs::cli::scan(args) matches Ok(s) && s.bind is Some,
    ensures
        crate::inputs::cli::parsed(args, env) == crate::inputs::cli::parsed(args, env2),
{
}

/// With no arguments the daemon runs, on the address of the environment or else
/// on the default address.
pub proof fn no_arguments_run_the_daemon(env: Option<Seq<char>>)
    ensures
        crate::inputs::cli::parsed(seq![], env) == Ok::<ActionView, StopView>(
            ActionView::Serve { bind: crate::inputs::cli::chosen_bind(None, env) },
        ),
{
}

/// The id that the client prints can be handed to `unregister`.
pub proof fn printed_id_unregisters(bind: Seq<char>, id: u64)
    ensures
        crate::inputs::cli::requested(
            bind,
            seq!["unregister"@, crate::text::decimal(id as nat)],
        ) == Ok::<ActionView, StopView>(ActionView::Unregister { bind, id }),
{
    reveal_strlit("unregister");
    reveal_strlit("register");
    assert("unregister"@.len() != "register"@.len());
    crate::text::decimal_reads_back(id);
}

/// The client reads what the server answers to a registration: it prints the id
/// of the answer.
pub proof fn client_prints_the_answered_id(
    bind: Seq<char>,
    name: Seq<char>,
    url: Seq<char>,
    description: Seq<char>,
    res: RegisterRes,
    body: Seq<char>,
)
    requires
        res.carried_by(body),
    ensures
        crate::inputs::cli::reply_outcome(
            ActionView::Register { bind, name, url, description },
            body,
        ) == Ok::<Seq<char>, Seq<char>>(
            crate::inputs::cli::registered_text(name, url, crate::text::decimal(res.id as nat)),
        ),
{
}

/// The client reads what the server answers to a deregistration: it tells
/// whether a service was deregistered.
pub proof fn client_tells_the_answered_success(
    bind: Seq<char>,
    id: u64,
    res: UnregisterRes,
    body: Seq<char>,
)
    requires
        res.carried_by(body),
    ensures
        crate::inputs::cli::reply_outcome(ActionView::Unregister { bind, id }, body) == Ok::<
            Seq<char>,
            Seq<char>,
        >(
            if res.success {
                "unregistered id="@ + crate::text::decimal(id as nat)
            } else {
                "no service with id="@ + crate::text::decimal(id as nat) + " was registered"@
            },
        ),
{
    reveal_strlit("true");
    reveal_strlit("false");
    assert("true"@.len() != "false"@.len());
}

/// An address with a port is taken apart without loss: host, colon and port make
/// it up, and the port holds no colon. A wildcard host that stands alone has no
/// port, though it may hold colons.
pub proof fn host_and_port_make_up_the_address(bind: Seq<char>)
    requires
        bind.contains(':'),
        !crate::inputs::cli::is_wildcard_host(bind),
    ensures
        crate::inputs::cli::bind_host(bind) + ":"@ + crate::inputs::cli::bind_port(bind) == bind,
        !crate::inputs::cli::bind_port(bind).contains(':'),
{
    crate::inputs::cli::last_colon_is_last(bind);
    reveal_strlit(":");
    let at = crate::inputs::cli::last_colon(bind);
    let i = choose|i: int| 0 <= i < bind.len() && bind[i] == ':';
    assert(at >= i);
    assert(crate::inputs::cli::bind_host(bind) + ":"@ + crate::inputs::cli::bind_port(bind)
        =~= bind);
}

/// Whatever the address, its port holds no colon.
proof fn port_holds_no_colon(bind: Seq<char>)
    ensures
        !crate::inputs::cli::bind_port(bind).contains(':'),
{
    crate::inputs::cli::last_colon_is_last(bind);
    reveal_strlit("8080");
}

/// A text can be taken apart at its last colon in one way only.
proof fn last_colon_splits_uniquely(
    host: Seq<char>,
    port: Seq<char>,
    host2: Seq<char>,
    port2: Seq<char>,
)
    requires
        host + ":"@ + port == host2 + ":"@ + port2,
        !port.contains(':'),
        !port2.contains(':'),
    ensures
        host == host2,
        port == port2,
{
    reveal_strlit(":");
    let a = host + ":"@ + port;
    let b = host2 + ":"@ + port2;
    assert(a.len() == host.len() + 1 + port.len());
    assert(b.len() == host2.len() + 1 + port2.len());
    assert(a[host.len() as int] == ':');
    assert(b[host2.len() as int] == ':');
    if host.len() < host2.len() {
        let i = host2.len() - host.len() - 1;
        assert(a[host2.len() as int] == port[i]);
    }
    if host2.len() < host.len() {
        let i = host.len() - host2.len() - 1;
        assert(b[host.len() as int] == port2[i]);
    }
    assert(host =~= a.take(host.len() as int));
    assert(host2 =~= b.take(host2.len() as int));
    assert(port =~= a.skip(host.len() as int + 1));
    assert(port2 =~= b.skip(host2.len() as int + 1));
}

/// A wildcard host is dialed as loopback, at the port that the address names or
/// else at the default port; every other host is dialed as it is.
pub proof fn wildcard_is_dialed_as_loopback(bind: Seq<char>)
    ensures
        crate::inputs::cli::base_url(bind) == "http://"@ + (if crate::inputs::cli::is_wildcard_host(
            crate::inputs::cli::bind_host(bind),
        ) {
            "127.0.0.1"@
        } else {
            crate::inputs::cli::bind_host(bind)
        }) + ":"@ + crate::inputs::cli::bind_port(bind),
        crate::inputs::cli::is_wildcard_host(bind) ==> crate::inputs::cli::base_url(bind)
            == "http://"@ + "127.0.0.1"@ + ":"@ + "8080"@,
{
}

/// The client never dials a wildcard host: whatever the address, the URL that it
/// dials is no URL of a wildcard host, with a port or without one.
pub proof fn wildcard_is_never_dialed(bind: Seq<char>, wildcard: Seq<char>, port: Seq<char>)
    requires
        crate::inputs::cli::is_wildcard_host(wildcard),
        !port.contains(':'),
    ensures
        crate::inputs::cli::base_url(bind) != "http://"@ + wildcard + ":"@ + port,
        crate::inputs::cli::base_url(bind) != "http://"@ + wildcard,
{
    reveal_strlit("");
    reveal_strlit("0.0.0.0");
    reveal_strlit("::");
    reveal_strlit("[::]");
    reveal_strlit("127.0.0.1");
    reveal_strlit(":");
    let host = crate::inputs::cli::dialed_host(bind);
    let dialed = crate::inputs::cli::bind_port(bind);
    let url = crate::inputs::cli::base_url(bind);
    let scheme = "http://"@;
    port_holds_no_colon(bind);
    assert("127.0.0.1"@.len() == 9);
    assert(!crate::inputs::cli::is_wildcard_host(host));
    assert(url.skip(scheme.len() as int) =~= host + ":"@ + dialed);
    if url == scheme + wildcard + ":"@ + port {
        assert(url.skip(scheme.len() as int) =~= wildcard + ":"@ + port);
        last_colon_splits_uniquely(host, dialed, wildcard, port);
    }
    if url == scheme + wildcard {
        assert(url.skip(scheme.len() as int) =~= wildcard);
        assert(wildcard == host + ":"@ + dialed);
        assert(wildcard[host.len() as int] == ':');
        // The host is what stands before the last colon of the wildcard, so it is
        // no loopback address, and the address itself is the wildcard.
        assert(host.len() < 9);
        assert(host == crate::inputs::cli::bind_host(bind));
        assert(wildcard == "::"@ || wildcard == "[::]"@) by {
            if wildcard == "0.0.0.0"@ {
                assert("0.0.0.0"@[host.len() as int] != ':');
            }
        }
        if crate::inputs::cli::names_port(bind) {
            crate::inputs::cli::last_colon_is_last(bind);
            assert(bind =~= host + ":"@ + dialed);
        } else {
            reveal_strlit("8080");
            assert(dialed.len() == 4);
        }
    }
}

/// The client's way after `n` unanswered probes.
pub open spec fn after_silence(n: nat) -> Wait
    decreases n,
{
    if n == 0 {
        Wait::Probe
    } else {
        after_silence((n - 1) as nat).after(false)
    }
}

/// The client starts a daemon once, after the first probe goes unanswered; it
/// gives up exactly when [`POLL_ATTEMPTS`] further probes have gone unanswered
/// too.
pub proof fn client_gives_up_at_the_limit(n: nat)
    ensures
        n > POLL_ATTEMPTS <==> after_silence(n) is GiveUp,
        1 <= n <= POLL_ATTEMPTS ==> after_silence(n) == (Wait::Poll {
            start: n == 1,
            left: (POLL_ATTEMPTS - n + 1) as u32,
        }),
    decreases n,
{
    if n > 0 {
        client_gives_up_at_the_limit((n - 1) as nat);
    }
}

/// The first probe that is answered ends the wait, unless the client has given
/// up; the client has started a daemon exactly if an earlier probe went
/// unanswered.
pub proof fn answered_probe_ends_the_wait(n: nat)
    requires
        n <= POLL_ATTEMPTS,
    ensures
        after_silence(n).after(true) == (Wait::Ready { started: n > 0 }),
{
    client_gives_up_at_the_limit(n);
}

} // verus!
