//! What the HTTP interface answers, said of its inputs and of the registry.

use vstd::prelude::*;

use crate::daemon::Registry;
use crate::inputs::http::{
    Forwarding, ForwardingView, IpAddress, ServeFailure, StatusCode, PUBLIC_NOTE,
    SERVE_FAILURE_STATUS,
};
use crate::inputs::wire::ServiceGroup;

verus! {

// ---------------------------------------------------------------------------
// Forwarding
// ---------------------------------------------------------------------------

/// A request for `/{name}/{id}/{rest}` goes to the backend's address, a slash and
/// the rest; a query follows behind a question mark, character for character.
pub proof fn request_goes_to_address_rest_and_query(
    r: Registry,
    name: Seq<char>,
    id: u64,
    rest: Seq<char>,
    query: Seq<char>,
)
    requires
        r.services.contains_key(id),
        r.services[id].name == name,
    ensures
        crate::inputs::http::first_step(r, name, id, rest, Some(query))
            == (ForwardingView::ReadBody {
            id,
            target: r.services[id].url + "/"@ + rest + "?"@ + query,
        }),
        crate::inputs::http::first_step(r, name, id, rest, None) == (ForwardingView::ReadBody {
            id,
            target: r.services[id].url + "/"@ + rest,
        }),
{
    let url = r.services[id].url;
    assert(url + "/"@ + rest + ("?"@ + query) =~= url + "/"@ + rest + "?"@ + query);
    assert(url + "/"@ + rest + Seq::<char>::empty() =~= url + "/"@ + rest);
}

/// A service that was registered at an address is reached there: a request under
/// its name and the id that the registration was answered with goes to that
/// address, a slash, the rest, and the query behind a question mark.
pub proof fn registered_service_is_reached(
    r: Registry,
    name: Seq<char>,
    url: Seq<char>,
    description: Seq<char>,
    id: u64,
    rest: Seq<char>,
    query: Seq<char>,
)
    requires
        url.last() != '/',
        r.register_result(url) == Ok::<u64, Seq<char>>(id),
    ensures
        ({
            let after = r.register(name, url, description);
            &&& crate::inputs::http::first_step(after, name, id, rest, Some(query))
                == (ForwardingView::ReadBody { id, target: url + "/"@ + rest + "?"@ + query })
            &&& crate::inputs::http::first_step(after, name, id, rest, None)
                == (ForwardingView::ReadBody { id, target: url + "/"@ + rest })
        }),
{
    super::registry::address_is_stored_as_reported(r, name, url, description, id);
    request_goes_to_address_rest_and_query(
        r.register(name, url, description),
        name,
        id,
        rest,
        query,
    );
}

/// Two requests to one backend that differ in the rest of the path or, behind
/// the same rest, in the query go to different URLs: nothing of either is lost.
pub proof fn different_requests_go_to_different_urls(
    r: Registry,
    name: Seq<char>,
    id: u64,
    rest: Seq<char>,
    rest2: Seq<char>,
    query: Option<Seq<char>>,
    query2: Option<Seq<char>>,
)
    requires
        r.services.contains_key(id),
        r.services[id].name == name,
        rest == rest2 && query != query2 || rest != rest2 && query == query2,
    ensures
        crate::inputs::http::first_step(r, name, id, rest, query)
            != crate::inputs::http::first_step(r, name, id, rest2, query2),
{
    reveal_strlit("?");
    let url = r.services[id].url;
    let first = crate::inputs::http::first_step(r, name, id, rest, query);
    let second = crate::inputs::http::first_step(r, name, id, rest2, query2);
    request_goes_to_address_rest_and_query(r, name, id, rest, query.unwrap_or(seq![]));
    request_goes_to_address_rest_and_query(r, name, id, rest2, query2.unwrap_or(seq![]));
    if first == second {
        let a = first->ReadBody_target;
        let b = second->ReadBody_target;
        let n = (url + "/"@).len() as int;
        if rest == rest2 {
            let m = n + rest.len();
            if query is Some && query2 is Some {
                assert(a.skip(m + 1) =~= query->0);
                assert(b.skip(m + 1) =~= query2->0);
            }
        } else {
            let k = if query is Some {
                query->0.len() + 1
            } else {
                0
            };
            assert(a.subrange(n, a.len() - k) =~= rest);
            assert(b.subrange(n, b.len() - k) =~= rest2);
        }
    }
}

/// A request to an id that is not registered, or under another name than that of
/// the id, is answered with 404 and the reason, and goes nowhere.
pub proof fn unknown_route_is_answered_with_the_reason(
    r: Registry,
    name: Seq<char>,
    id: u64,
    rest: Seq<char>,
    query: Option<Seq<char>>,
)
    requires
        !r.services.contains_key(id) || r.services[id].name != name,
    ensures
        crate::inputs::http::first_step(r, name, id, rest, query) == (ForwardingView::Respond {
            status: StatusCode::NotFound,
            message: if r.services.contains_key(id) {
                "service name/id mismatch"@
            } else {
                "service not found"@
            },
            evicted: false,
        }),
{
}

/// The course of a request: once its body is read it is sent, unchanged, to the
/// URL and the backend that were chosen, and the answer is relayed. A body that
/// cannot be read gives 400, and a backend that cannot be reached gives 502, with
/// word of its eviction where it had failed twice in a row before.
pub proof fn request_takes_its_course(r: Registry, id: u64, target: Seq<char>)
    ensures
        ({
            let read = ForwardingView::ReadBody { id, target };
            let sent = ForwardingView::Send { id, target };
            &&& crate::inputs::http::step_after(r, read, true) == sent
            &&& crate::inputs::http::step_after(r, read, false) == (ForwardingView::Respond {
                status: StatusCode::BadRequest,
                message: "invalid request body"@,
                evicted: false,
            })
            &&& crate::inputs::http::step_after(r, sent, true) == ForwardingView::Relay
            &&& crate::inputs::http::step_after(r, sent, false) == (ForwardingView::Respond {
                status: StatusCode::BadGateway,
                message: "upstream unavailable"@,
                evicted: r.services.contains_key(id) && r.services[id].failures >= 2,
            })
        }),
{
}

/// A response that is relayed, or that the server gives itself, is the end of the
/// request; where a response cannot be relayed the client is told 502, without a
/// text.
pub proof fn response_ends_the_request(
    r: Registry,
    status: StatusCode,
    message: Seq<char>,
    evicted: bool,
    succeeded: bool,
)
    ensures
        ({
            let response = ForwardingView::Respond { status, message, evicted };
            &&& crate::inputs::http::step_after(r, response, succeeded) == response
            &&& crate::inputs::http::step_after(r, ForwardingView::Relay, true)
                == ForwardingView::Relay
            &&& crate::inputs::http::step_after(r, ForwardingView::Relay, false)
                == (ForwardingView::Respond {
                status: StatusCode::BadGateway,
                message: seq![],
                evicted: false,
            })
        }),
{
    reveal_strlit("");
    assert(""@ =~= Seq::<char>::empty());
}

/// Only sending counts for the registry: a backend that answered is recorded as a
/// success, one that could not be reached as a failure, and no other step of a
/// request changes anything.
pub proof fn only_sending_counts(r: Registry, step: ForwardingView, succeeded: bool)
    ensures
        crate::inputs::http::registry_after(r, step, succeeded) == match step {
            ForwardingView::Send { id, .. } => if succeeded {
                r.record_success(id)
            } else {
                r.record_failure(id)
            },
            ForwardingView::ReadBody { .. } => r,
            ForwardingView::Relay => r,
            ForwardingView::Respond { .. } => r,
        },
{
}

// ---------------------------------------------------------------------------
// Peers, statuses and listings
// ---------------------------------------------------------------------------

/// The loopback addresses are those of 127.0.0.0/8 and ::1, and no others: only
/// they may register.
pub proof fn only_local_addresses_are_loopback(octets: [u8; 4], segments: [u16; 8])
    ensures
        IpAddress::V4(octets).loopback() <==> octets@[0] == 127,
        IpAddress::V6(segments).loopback() <==> (forall|i: int| 0 <= i < 7 ==> segments@[i] == 0)
            && segments@[7] == 1,
{
    if (forall|i: int| 0 <= i < 7 ==> segments@[i] == 0) && segments@[7] == 1 {
        assert(segments@ =~= seq![0u16, 0, 0, 0, 0, 0, 0, 1]);
    }
}

/// The addresses that stand for every interface are 0.0.0.0 and ::, and no
/// others.
pub proof fn only_zero_addresses_are_unspecified(octets: [u8; 4], segments: [u16; 8])
    ensures
        IpAddress::V4(octets).unspecified() <==> forall|i: int| 0 <= i < 4 ==> octets@[i] == 0,
        IpAddress::V6(segments).unspecified() <==> forall|i: int| 0 <= i < 8 ==> segments@[i] == 0,
{
    if forall|i: int| 0 <= i < 4 ==> octets@[i] == 0 {
        assert(octets@ =~= seq![0u8, 0, 0, 0]);
    }
    if forall|i: int| 0 <= i < 8 ==> segments@[i] == 0 {
        assert(segments@ =~= seq![0u16, 0, 0, 0, 0, 0, 0, 0]);
    }
}

/// The statuses have the numbers that HTTP gives them, and a remote client is
/// told why it may not register.
pub proof fn statuses_have_their_numbers()
    ensures
        StatusCode::BadRequest.number() == 400,
        StatusCode::Forbidden.number() == 403,
        StatusCode::NotFound.number() == 404,
        StatusCode::BadGateway.number() == 502,
        crate::inputs::http::localhost_only() == "registration is restricted to localhost"@,
{
}

/// A listing holds each name once. The instances of a group are exactly the
/// services that are registered under its name, with their addresses; there is at
/// least one, and the group has the description of the one with the least id.
/// Every name under which a service is registered has a group.
pub proof fn listing_groups_the_services_by_name(
    r: Registry,
    groups: Seq<(String, ServiceGroup)>,
    i: int,
    j: int,
    id: u64,
)
    requires
        crate::inputs::http::is_listing(r, groups),
        0 <= i < groups.len(),
        0 <= j < groups.len(),
    ensures
        i != j ==> groups[i].0@ != groups[j].0@,
        groups[i].1.services@.contains_key(id) <==> r.services.contains_key(id)
            && r.services[id].name == groups[i].0@,
        groups[i].1.services@.contains_key(id) ==> groups[i].1.services@[id].url@
            == r.services[id].url,
        exists|first: u64| #[trigger]
            r.services.contains_key(first) && {
                &&& r.services[first].name == groups[i].0@
                &&& groups[i].1.description@ == r.services[first].description
                &&& forall|other: u64| #[trigger]
                    r.services.contains_key(other) && r.services[other].name == groups[i].0@
                        ==> first <= other
            },
{
    let name = groups[i].0@;
    let group = groups[i].1@;
    assert(crate::inputs::http::is_group(r, name, group));
    if i < j {
        assert(groups[i].0@ != groups[j].0@);
    }
    if j < i {
        assert(groups[j].0@ != groups[i].0@);
    }
    assert(group.services.contains_key(id) <==> crate::inputs::http::is_instance(r, name, id));
    let first = choose|first: u64| #[trigger]
        crate::inputs::http::is_first_instance(r, name, first) && group.description
            == r.services[first].description;
    assert forall|other: u64| #[trigger]
        r.services.contains_key(other) && r.services[other].name == name implies first <= other by {
        assert(crate::inputs::http::is_instance(r, name, other));
    }
    assert(r.services.contains_key(first));
}

/// No registered service is missing from a listing.
pub proof fn listing_has_every_name(r: Registry, groups: Seq<(String, ServiceGroup)>, id: u64)
    requires
        crate::inputs::http::is_listing(r, groups),
        r.services.contains_key(id),
    ensures
        exists|i: int|
            0 <= i < groups.len() && (#[trigger] groups[i]).0@ == r.services[id].name
                && groups[i].1.services@.contains_key(id),
{
    super::each_service_is_listed_once(r, groups, id);
}

// ---------------------------------------------------------------------------
// Starting the server
// ---------------------------------------------------------------------------

/// A server that is bound to one address is reachable there alone; one that is
/// bound to every interface is reachable at its port on localhost, and on the
/// local network where its address there is known.
pub proof fn startup_tells_where_the_server_is(port: u16, bound: Seq<char>, lan: Seq<char>)
    ensures
        crate::inputs::http::endpoint_texts(false, port, bound, None)
            == seq!["switchelo is running:"@, "  http://"@ + bound + "/"@],
        crate::inputs::http::endpoint_texts(false, port, bound, Some(lan))
            == seq!["switchelo is running:"@, "  http://"@ + bound + "/"@],
        crate::inputs::http::endpoint_texts(true, port, bound, None)
            == seq![
                "switchelo is running:"@,
                "  http://localhost:"@ + crate::text::decimal(port as nat) + "/"@,
            ],
        crate::inputs::http::endpoint_texts(true, port, bound, Some(lan))
            == seq![
                "switchelo is running:"@,
                "  http://localhost:"@ + crate::text::decimal(port as nat) + "/"@,
                "  http://"@ + lan + ":"@ + crate::text::decimal(port as nat) + "/"@,
            ],
{
}

/// The operator of a server that every machine can reach is told that others can
/// use the proxy and that they cannot register.
pub proof fn public_server_is_announced()
    ensures
        PUBLIC_NOTE@
            == "note: bound to a public interface; remote clients can use the proxy, but registration stays restricted to localhost."@,
{
}

/// A failure of the server names the address that it concerns and what the system
/// said of it, and ends the program with 1.
pub proof fn server_failure_names_its_cause(addr: String, error: String)
    ensures
        (ServeFailure::AddressInUse { addr }).text() == "error: address "@ + addr@
            + " is already in use (another switchelo instance? set BIND to a free port)"@,
        (ServeFailure::NotBound { addr, error }).text() == "error: failed to bind "@ + addr@ + ": "@
            + error@,
        (ServeFailure::Stopped { error }).text() == "error: server stopped: "@ + error@,
        SERVE_FAILURE_STATUS == 1,
{
}

// ---------------------------------------------------------------------------
// Views
// ---------------------------------------------------------------------------

/// The model of a step of a request shows all that the step holds.
pub proof fn step_is_shown_in_full(step: Forwarding)
    ensures
        match step {
            Forwarding::ReadBody { id, target } => step@ == (ForwardingView::ReadBody {
                id,
                target: target@,
            }),
            Forwarding::Send { id, target } => step@ == (ForwardingView::Send {
                id,
                target: target@,
            }),
            Forwarding::Relay => step@ == ForwardingView::Relay,
            Forwarding::Respond { reply, evicted } => step@ == (ForwardingView::Respond {
                status: reply.status,
                message: reply.message@,
                evicted,
            }),
        },
{
}

} // verus!
