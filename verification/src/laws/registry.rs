//! What the operations on the registry do, said of the services and of the id
//! counter.

use vstd::prelude::*;

use super::Operation;
use crate::daemon::{
    Registry, Service, ServiceView, CONNECT_TIMEOUT_SECS, MAX_FAILURES, READ_TIMEOUT_SECS,
};

verus! {

// ---------------------------------------------------------------------------
// Registering
// ---------------------------------------------------------------------------

/// An address that, without the slashes at its end, begins neither with
/// `http://` nor with `https://` is refused with the reason, and nothing changes.
pub proof fn other_schemes_are_refused(
    r: Registry,
    name: Seq<char>,
    url: Seq<char>,
    description: Seq<char>,
    base: Seq<char>,
)
    requires
        base.is_prefix_of(url),
        forall|i: int| base.len() <= i < url.len() ==> #[trigger] url[i] == '/',
        base.len() > 0 ==> base.last() != '/',
        !"http://"@.is_prefix_of(base),
        !"https://"@.is_prefix_of(base),
    ensures
        r.register_result(url) == Err::<u64, Seq<char>>(
            "unsupported URL scheme (expected http:// or https://): "@ + base,
        ),
        r.register(name, url, description) == r,
{
    super::text::trimming_has_one_outcome(url, base);
}

/// A service at an address that no service has is added under the counter's
/// value, with what was reported, the address without the slashes at its end, and
/// no failures; the counter advances by one, and behind the greatest id it starts
/// again at 0.
pub proof fn new_address_is_added(
    r: Registry,
    name: Seq<char>,
    url: Seq<char>,
    description: Seq<char>,
    base: Seq<char>,
)
    requires
        base.is_prefix_of(url),
        forall|i: int| base.len() <= i < url.len() ==> #[trigger] url[i] == '/',
        base.last() != '/',
        "http://"@.is_prefix_of(base) || "https://"@.is_prefix_of(base),
        forall|id: u64| #[trigger] r.services.contains_key(id) ==> r.services[id].url != base,
    ensures
        r.register_result(url) == Ok::<u64, Seq<char>>(r.next_id),
        r.register(name, url, description).services == r.services.insert(
            r.next_id,
            ServiceView { name, url: base, description, failures: 0 },
        ),
        r.register(name, url, description).next_id == if r.next_id == 0xffff_ffff_ffff_ffff {
            0
        } else {
            r.next_id + 1
        },
{
    super::text::trimming_has_one_outcome(url, base);
}

/// A report from an address that one service has is answered with the id of that
/// service and replaces its name and description; its failures are cleared, and
/// no id is handed out.
pub proof fn known_address_is_refreshed(
    r: Registry,
    name: Seq<char>,
    url: Seq<char>,
    description: Seq<char>,
    base: Seq<char>,
    id: u64,
)
    requires
        base.is_prefix_of(url),
        forall|i: int| base.len() <= i < url.len() ==> #[trigger] url[i] == '/',
        base.last() != '/',
        "http://"@.is_prefix_of(base) || "https://"@.is_prefix_of(base),
        r.services.contains_key(id),
        r.services[id].url == base,
        forall|other: u64| #[trigger]
            r.services.contains_key(other) && r.services[other].url == base ==> other == id,
    ensures
        r.register_result(url) == Ok::<u64, Seq<char>>(id),
        r.register(name, url, description).services == r.services.insert(
            id,
            ServiceView { name, url: base, description, failures: 0 },
        ),
        r.register(name, url, description).next_id == r.next_id,
{
    super::text::trimming_has_one_outcome(url, base);
    assert(r.has_url(base));
}

/// An address without a slash at its end is stored as it was reported, whatever
/// else it holds.
pub proof fn address_is_stored_as_reported(
    r: Registry,
    name: Seq<char>,
    url: Seq<char>,
    description: Seq<char>,
    id: u64,
)
    requires
        url.last() != '/',
        r.register_result(url) == Ok::<u64, Seq<char>>(id),
    ensures
        r.register(name, url, description).services.contains_key(id),
        r.register(name, url, description).services[id] == (ServiceView {
            name,
            url,
            description,
            failures: 0,
        }),
{
    super::text::trimming_has_one_outcome(url, url);
}

// ---------------------------------------------------------------------------
// The other operations
// ---------------------------------------------------------------------------

/// A new registry holds no service, and its first id is 0.
pub proof fn new_registry_is_empty(id: u64)
    ensures
        !Registry::empty().services.contains_key(id),
        Registry::empty().next_id == 0,
{
}

/// Deregistering takes out the service with that id and no other, and hands out
/// no id.
pub proof fn unregistering_takes_out_one_service(r: Registry, id: u64)
    ensures
        r.unregister(id).services == r.services.remove(id),
        r.unregister(id).next_id == r.next_id,
{
}

/// A successful forward sets the failures of the service to 0 and changes nothing
/// else.
pub proof fn success_clears_the_failures(r: Registry, id: u64)
    requires
        r.services.contains_key(id),
    ensures
        r.record_success(id).services == r.services.insert(
            id,
            ServiceView {
                name: r.services[id].name,
                url: r.services[id].url,
                description: r.services[id].description,
                failures: 0,
            },
        ),
        r.record_success(id).next_id == r.next_id,
{
}

/// A service with less than two failures survives one more, which is counted; any
/// other is taken out by it, and the answer says which of the two happened.
/// Nothing else changes.
pub proof fn third_failure_evicts(r: Registry, id: u64)
    requires
        r.services.contains_key(id),
    ensures
        r.failure_evicts(id) <==> r.services[id].failures >= 2,
        r.record_failure(id).services == if r.services[id].failures >= 2 {
            r.services.remove(id)
        } else {
            r.services.insert(
                id,
                ServiceView {
                    name: r.services[id].name,
                    url: r.services[id].url,
                    description: r.services[id].description,
                    failures: r.services[id].failures + 1,
                },
            )
        },
        r.record_failure(id).next_id == r.next_id,
{
}

/// Three failures in a row are the limit; a backend has five seconds to accept a
/// connection, and may stay silent for thirty.
pub proof fn backends_have_their_limits()
    ensures
        MAX_FAILURES == 3,
        CONNECT_TIMEOUT_SECS == 5,
        READ_TIMEOUT_SECS == 30,
{
}

/// A lookup by id gives the service with that id, and nothing where there is
/// none.
pub proof fn lookup_finds_what_is_registered(r: Registry, id: u64)
    ensures
        r.services.contains_key(id) ==> r.get(id) == Some(r.services[id]),
        !r.services.contains_key(id) ==> r.get(id) is None,
{
}

/// A lookup by address finds nothing only if every registered service has another
/// address.
pub proof fn address_is_missed_only_if_unused(r: Registry, url: Seq<char>, id: u64)
    requires
        !r.has_url(url),
        r.services.contains_key(id),
    ensures
        r.services[id].url != url,
{
}

/// The entries of a snapshot ascend by id, each shows its service in full, and
/// every registered service has an entry.
pub proof fn snapshot_shows_every_service_by_id(r: Registry, list: Seq<(u64, Service)>, id: u64)
    requires
        r.is_snapshot(list),
    ensures
        forall|i: int, j: int|
            0 <= i < j < list.len() ==> (#[trigger] list[i]).0 < (#[trigger] list[j]).0,
        forall|i: int|
            0 <= i < list.len() ==> {
                &&& r.services.contains_key((#[trigger] list[i]).0)
                &&& list[i].1.name@ == r.services[list[i].0].name
                &&& list[i].1.url@ == r.services[list[i].0].url
                &&& list[i].1.description@ == r.services[list[i].0].description
                &&& list[i].1.failures == r.services[list[i].0].failures
            },
        r.services.contains_key(id) ==> exists|i: int|
            0 <= i < list.len() && (#[trigger] list[i]).0 == id,
{
    assert forall|i: int| 0 <= i < list.len() implies {
        &&& r.services.contains_key((#[trigger] list[i]).0)
        &&& list[i].1.name@ == r.services[list[i].0].name
        &&& list[i].1.url@ == r.services[list[i].0].url
        &&& list[i].1.description@ == r.services[list[i].0].description
        &&& list[i].1.failures == r.services[list[i].0].failures
    } by {
        assert(list[i].1@ == r.services[list[i].0]);
    }
}

// ---------------------------------------------------------------------------
// Every state
// ---------------------------------------------------------------------------

/// In every registry that a new daemon can come to, each service has an address
/// with one of the two schemes and without a slash at its end, has failed less
/// than three times in a row, and shares its address with no other.
pub proof fn every_reachable_service_can_be_forwarded_to(ops: Seq<Operation>, a: u64, b: u64)
    requires
        super::after_all(Registry::empty(), ops).services.contains_key(a),
        super::after_all(Registry::empty(), ops).services.contains_key(b),
    ensures
        ({
            let r = super::after_all(Registry::empty(), ops);
            let s = r.services[a];
            &&& "http://"@.is_prefix_of(s.url) || "https://"@.is_prefix_of(s.url)
            &&& s.url.last() != '/'
            &&& s.failures < 3
            &&& a != b ==> s.url != r.services[b].url
        }),
{
    super::every_reachable_registry_is_wf(ops);
    assert(super::after_all(Registry::empty(), ops).services[a].wf());
}

// ---------------------------------------------------------------------------
// Views
// ---------------------------------------------------------------------------

/// The model of a service shows each of its fields, and that of an answer to a
/// registration shows the id or the reason.
pub proof fn service_is_shown_in_full(s: Service, r: Result<u64, String>)
    ensures
        s@.name == s.name@,
        s@.url == s.url@,
        s@.description == s.description@,
        s@.failures == s.failures,
        r is Ok ==> crate::daemon::register_result_view(r) == Ok::<u64, Seq<char>>(r->Ok_0),
        r is Err ==> crate::daemon::register_result_view(r) == Err::<u64, Seq<char>>((r->Err_0)@),
{
}

} // verus!
