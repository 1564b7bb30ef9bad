//! The HTTP interface: what the server answers to a registration, to a
//! deregistration and to a listing, and how it forwards a request to a backend.
//! It is a thin layer over [`Daemon`]; all registry mutations go through the
//! daemon's methods. The shapes of requests and responses live in
//! [`super::wire`].

use std::collections::HashMap;

use vstd::prelude::*;

use crate::daemon::{Daemon, Registry, Service};
use crate::inputs::wire::{
    GroupView, Instance, RegisterReq, RegisterRes, ServiceGroup, UnregisterReq, UnregisterRes,
};
use crate::text::{concat2, concat3, concat4, text_eq, u64_text};

verus! {

// ---------------------------------------------------------------------------
// Statuses and addresses
// ---------------------------------------------------------------------------

/// The HTTP statuses with which the server itself refuses a request.
#[derive(Clone, Copy, Debug, PartialEq, Eq, Structural)]
pub enum StatusCode {
    BadRequest,
    Forbidden,
    NotFound,
    BadGateway,
}

impl StatusCode {
    /// The number of the status.
    pub open spec fn number(self) -> u16 {
        match self {
            StatusCode::BadRequest => 400,
            StatusCode::Forbidden => 403,
            StatusCode::NotFound => 404,
            StatusCode::BadGateway => 502,
        }
    }

    /// The number of the status.
    pub fn as_u16(self) -> (r: u16)
        ensures
            r == self.number(),
    {
        match self {
            StatusCode::BadRequest => 400,
            StatusCode::Forbidden => 403,
            StatusCode::NotFound => 404,
            StatusCode::BadGateway => 502,
        }
    }
}

/// An IP address: the four octets of an IPv4 address, or the eight segments of
/// an IPv6 address.
#[derive(Clone, Copy, Debug)]
pub enum IpAddress {
    V4([u8; 4]),
    V6([u16; 8]),
}

impl IpAddress {
    /// The address is a loopback address: one of 127.0.0.0/8, or ::1.
    pub open spec fn loopback(self) -> bool {
        match self {
            IpAddress::V4(octets) => octets@[0] == 127,
            IpAddress::V6(segments) => segments@ == seq![0u16, 0, 0, 0, 0, 0, 0, 1],
        }
    }

    /// The address stands for every interface: 0.0.0.0, or ::.
    pub open spec fn unspecified(self) -> bool {
        match self {
            IpAddress::V4(octets) => octets@ == seq![0u8, 0, 0, 0],
            IpAddress::V6(segments) => segments@ == seq![0u16, 0, 0, 0, 0, 0, 0, 0],
        }
    }

    /// The address is a loopback address.
    pub fn is_loopback(&self) -> (r: bool)
        ensures
            r == self.loopback(),
    {
        match self {
            IpAddress::V4(o) => o[0] == 127,
            IpAddress::V6(s) => {
                let r: bool = s[0] == 0 && s[1] == 0 && s[2] == 0 && s[3] == 0 && s[4] == 0 && s[5]
                    == 0 && s[6] == 0 && s[7] == 1;
                assert(r ==> s@ =~= seq![0u16, 0, 0, 0, 0, 0, 0, 1]);
                r
            },
        }
    }

    /// The address stands for every interface.
    pub fn is_unspecified(&self) -> (r: bool)
        ensures
            r == self.unspecified(),
    {
        match self {
            IpAddress::V4(o) => {
                let r: bool = o[0] == 0 && o[1] == 0 && o[2] == 0 && o[3] == 0;
                assert(r ==> o@ =~= seq![0u8, 0, 0, 0]);
                r
            },
            IpAddress::V6(s) => {
                let r: bool = s[0] == 0 && s[1] == 0 && s[2] == 0 && s[3] == 0 && s[4] == 0 && s[5]
                    == 0 && s[6] == 0 && s[7] == 0;
                assert(r ==> s@ =~= seq![0u16, 0, 0, 0, 0, 0, 0, 0]);
                r
            },
        }
    }
}

// ---------------------------------------------------------------------------
// Registration and deregistration
// ---------------------------------------------------------------------------

/// What a remote client is told that asks for a (de)registration.
pub open spec fn localhost_only() -> Seq<char> {
    "registration is restricted to localhost"@
}

/// Reject a mutating request that did not originate from loopback. Registration
/// is local-only: a backend can only be (de)registered by a process on the same
/// machine, so a remote client can never inject an arbitrary proxy target.
pub fn require_loopback(peer: &IpAddress) -> (r: Result<(), (StatusCode, &'static str)>)
    ensures
        match r {
            Ok(_) => peer.loopback(),
            Err(e) => !peer.loopback() && e.0 == StatusCode::Forbidden && e.1@ == localhost_only(),
        },
{
    if peer.is_loopback() {
        Ok(())
    } else {
        Err((StatusCode::Forbidden, "registration is restricted to localhost"))
    }
}

/// `POST /registry`: a service registers itself (localhost only).
pub fn register(daemon: &mut Daemon, peer: &IpAddress, req: RegisterReq) -> (r: Result<
    RegisterRes,
    (StatusCode, String),
>)
    requires
        old(daemon)@.wf(),
    ensures
        final(daemon)@.wf(),
        final(daemon)@ == if peer.loopback() {
            old(daemon)@.register(req.name@, req.url@, req.description@)
        } else {
            old(daemon)@
        },
        match r {
            Ok(res) => peer.loopback() && old(daemon)@.register_result(req.url@) == Ok::<
                u64,
                Seq<char>,
            >(res.id),
            Err(e) => if peer.loopback() {
                e.0 == StatusCode::BadRequest && old(daemon)@.register_result(req.url@) == Err::<
                    u64,
                    Seq<char>,
                >(e.1@)
            } else {
                e.0 == StatusCode::Forbidden && e.1@ == localhost_only()
            },
        },
{
    match require_loopback(peer) {
        Ok(_) => {},
        Err(e) => {
            return Err((e.0, e.1.to_owned()));
        },
    }
    match daemon.register(req.name, req.url, req.description) {
        Ok(id) => Ok(RegisterRes { id }),
        Err(e) => Err((StatusCode::BadRequest, e)),
    }
}

/// `POST /unregistry`: a service gracefully goes offline (localhost only).
pub fn unregister(daemon: &mut Daemon, peer: &IpAddress, req: UnregisterReq) -> (r: Result<
    UnregisterRes,
    (StatusCode, &'static str),
>)
    requires
        old(daemon)@.wf(),
    ensures
        final(daemon)@.wf(),
        final(daemon)@ == if peer.loopback() {
            old(daemon)@.unregister(req.id)
        } else {
            old(daemon)@
        },
        match r {
            Ok(res) => peer.loopback() && res.success == old(daemon)@.services.contains_key(req.id),
            Err(e) => !peer.loopback() && e.0 == StatusCode::Forbidden && e.1@ == localhost_only(),
        },
{
    match require_loopback(peer) {
        Ok(_) => {},
        Err(e) => {
            return Err(e);
        },
    }
    let success: bool = daemon.unregister(req.id);
    Ok(UnregisterRes { success })
}

// ---------------------------------------------------------------------------
// Listing
// ---------------------------------------------------------------------------

/// The service `id` is registered under `name`.
pub open spec fn is_instance(registry: Registry, name: Seq<char>, id: u64) -> bool {
    registry.services.contains_key(id) && registry.services[id].name == name
}

/// `id` is the first instance of `name`, the one with the least id.
pub open spec fn is_first_instance(registry: Registry, name: Seq<char>, id: u64) -> bool {
    &&& is_instance(registry, name, id)
    &&& forall|other: u64| #[trigger] is_instance(registry, name, other) ==> id <= other
}

/// `group` describes the services that are registered under `name`: it holds
/// the address of each of them, and the description of the first.
pub open spec fn is_group(registry: Registry, name: Seq<char>, group: GroupView) -> bool {
    &&& forall|id: u64| #[trigger]
        group.services.contains_key(id) <==> is_instance(registry, name, id)
    &&& forall|id: u64| #[trigger]
        group.services.contains_key(id) ==> group.services[id] == registry.services[id].url
    &&& exists|id: u64| #[trigger]
        is_first_instance(registry, name, id) && group.description
            == registry.services[id].description
}

/// `groups` describes every service of the registry, grouped by name, and holds
/// no name twice.
pub open spec fn is_listing(registry: Registry, groups: Seq<(String, ServiceGroup)>) -> bool {
    &&& forall|i: int, j: int|
        0 <= i < j < groups.len() ==> (#[trigger] groups[i]).0@ != (#[trigger] groups[j]).0@
    &&& forall|i: int|
        0 <= i < groups.len() ==> is_group(
            registry,
            (#[trigger] groups[i]).0@,
            groups[i].1@,
        )
    &&& forall|id: u64| #[trigger]
        registry.services.contains_key(id) ==> has_group(groups, registry.services[id].name)
}

/// One of `groups` has the name `name`.
pub open spec fn has_group(groups: Seq<(String, ServiceGroup)>, name: Seq<char>) -> bool {
    exists|i: int| 0 <= i < groups.len() && (#[trigger] groups[i]).0@ == name
}

/// The addresses of those among the first `n` services of `list` that have the
/// name `name`, by id.
spec fn members(list: Seq<(u64, Service)>, n: int, name: Seq<char>) -> Map<u64, Seq<char>>
    decreases n,
{
    if n <= 0 {
        Map::empty()
    } else if list[n - 1].1.name@ == name {
        members(list, n - 1, name).insert(list[n - 1].0, list[n - 1].1.url@)
    } else {
        members(list, n - 1, name)
    }
}

/// The service at `i` is the first of `list` with the name `name`.
spec fn is_first_listed(list: Seq<(u64, Service)>, i: int, name: Seq<char>) -> bool {
    &&& list[i].1.name@ == name
    &&& forall|j: int| 0 <= j < i ==> (#[trigger] list[j]).1.name@ != name
}

/// `group` describes those among the first `n` services of `list` that have the
/// name `name`.
spec fn groups_prefix(
    list: Seq<(u64, Service)>,
    n: int,
    name: Seq<char>,
    group: GroupView,
) -> bool {
    &&& group.services == members(list, n, name)
    &&& exists|i: int|
        0 <= i < n && #[trigger] is_first_listed(list, i, name) && group.description
            == list[i].1.description@
}

/// Where no service has the name `name`, there are no members.
proof fn no_members(list: Seq<(u64, Service)>, n: int, name: Seq<char>)
    requires
        forall|i: int| 0 <= i < n ==> (#[trigger] list[i]).1.name@ != name,
    ensures
        members(list, n, name) == Map::<u64, Seq<char>>::empty(),
    decreases n,
{
    if n > 0 {
        no_members(list, n - 1, name);
    }
}

/// The members of a snapshot with the name `name` are the instances of `name`.
proof fn members_are_instances(
    registry: Registry,
    list: Seq<(u64, Service)>,
    n: int,
    name: Seq<char>,
)
    requires
        registry.is_snapshot(list),
        0 <= n <= list.len(),
    ensures
        forall|id: u64| #[trigger]
            members(list, n, name).contains_key(id) <==> exists|i: int|
                0 <= i < n && (#[trigger] list[i]).0 == id && list[i].1.name@ == name,
        forall|id: u64| #[trigger]
            members(list, n, name).contains_key(id) ==> members(list, n, name)[id]
                == registry.services[id].url,
    decreases n,
{
    if n > 0 {
        members_are_instances(registry, list, n - 1, name);
        let before = members(list, n - 1, name);
        let after = members(list, n, name);
        let last = list[n - 1];
        assert(last.1@ == registry.services[last.0]);
        assert forall|id: u64| #[trigger] after.contains_key(id) <==> exists|i: int|
            0 <= i < n && (#[trigger] list[i]).0 == id && list[i].1.name@ == name by {
            if after.contains_key(id) {
                if id == last.0 && last.1.name@ == name {
                    assert(list[n - 1].0 == id);
                } else {
                    assert(before.contains_key(id));
                }
            }
            if exists|i: int|
                0 <= i < n && (#[trigger] list[i]).0 == id && list[i].1.name@ == name {
                let i = choose|i: int|
                    0 <= i < n && (#[trigger] list[i]).0 == id && list[i].1.name@ == name;
                if i < n - 1 {
                    assert(before.contains_key(id));
                }
            }
        }
    }
}

/// A group of all services of a snapshot is a group of the registry.
proof fn prefix_of_all_is_group(
    registry: Registry,
    list: Seq<(u64, Service)>,
    name: Seq<char>,
    group: GroupView,
)
    requires
        registry.is_snapshot(list),
        groups_prefix(list, list.len() as int, name, group),
    ensures
        is_group(registry, name, group),
{
    let n = list.len() as int;
    members_are_instances(registry, list, n, name);
    assert forall|id: u64| #[trigger] group.services.contains_key(id) <==> is_instance(
        registry,
        name,
        id,
    ) by {
        if is_instance(registry, name, id) {
            let i = choose|i: int| 0 <= i < list.len() && (#[trigger] list[i]).0 == id;
            assert(list[i].1@ == registry.services[id]);
        }
        if group.services.contains_key(id) {
            let i = choose|i: int|
                0 <= i < n && (#[trigger] list[i]).0 == id && list[i].1.name@ == name;
            assert(list[i].1@ == registry.services[id]);
        }
    }
    let i = choose|i: int|
        0 <= i < n && #[trigger] is_first_listed(list, i, name) && group.description
            == list[i].1.description@;
    let first = list[i].0;
    assert(list[i].1@ == registry.services[first]);
    assert forall|other: u64| #[trigger] is_instance(registry, name, other) implies first
        <= other by {
        let j = choose|j: int| 0 <= j < list.len() && (#[trigger] list[j]).0 == other;
        assert(list[j].1@ == registry.services[other]);
    }
    assert(is_first_instance(registry, name, first));
}

/// The position of the group named `name`, or the number of groups.
fn group_position(groups: &Vec<(String, ServiceGroup)>, name: &String) -> (k: usize)
    ensures
        k <= groups@.len(),
        k < groups@.len() ==> groups@[k as int].0@ == name@,
        k == groups@.len() ==> !has_group(groups@, name@),
{
    let mut k: usize = 0;
    while k < groups.len()
        invariant
            k <= groups@.len(),
            forall|i: int| 0 <= i < k ==> (#[trigger] groups@[i]).0@ != name@,
        decreases groups@.len() - k,
    {
        if groups[k].0 == *name {
            return k;
        }
        k = k + 1;
    }
    k
}

/// `GET /list`: every service grouped by name, each with its instances.
pub fn list(daemon: &Daemon) -> (groups: Vec<(String, ServiceGroup)>)
    ensures
        is_listing(daemon@, groups@),
{
    let snapshot: Vec<(u64, Service)> = daemon.snapshot();
    let mut groups: Vec<(String, ServiceGroup)> = Vec::new();
    let mut n: usize = 0;
    while n < snapshot.len()
        invariant
            n <= snapshot@.len(),
            daemon@.is_snapshot(snapshot@),
            forall|i: int, j: int|
                0 <= i < j < groups@.len() ==> (#[trigger] groups@[i]).0@ != (
                #[trigger] groups@[j]).0@,
            forall|i: int|
                0 <= i < groups@.len() ==> groups_prefix(
                    snapshot@,
                    n as int,
                    (#[trigger] groups@[i]).0@,
                    groups@[i].1@,
                ),
            forall|i: int| 0 <= i < n ==> has_group(groups@, (#[trigger] snapshot@[i]).1.name@),
        decreases snapshot@.len() - n,
    {
        let (id, s): (u64, &Service) = (snapshot[n].0, &snapshot[n].1);
        let ghost before = groups@;
        let k: usize = group_position(&groups, &s.name);
        let (name, mut group): (String, ServiceGroup) = if k == groups.len() {
            proof {
                assert forall|i: int| 0 <= i < n implies (#[trigger] snapshot@[i]).1.name@
                    != s.name@ by {
                    assert(has_group(groups@, snapshot@[i].1.name@));
                }
                no_members(snapshot@, n as int, s.name@);
                assert(is_first_listed(snapshot@, n as int, s.name@));
            }
            let description: String = s.description.clone();
            (s.name.clone(), ServiceGroup { description, services: HashMap::new() })
        } else {
            groups.remove(k)
        };
        let ghost old_services = group@.services;
        group.services.insert(id, Instance { url: s.url.clone() });
        groups.insert(k, (name, group));
        proof {
            assert(old_services =~= members(snapshot@, n as int, s.name@));
            assert(group@.services =~= members(snapshot@, n + 1, s.name@));
            assert forall|i: int| 0 <= i < groups@.len() && i != k implies groups@[i]
                == before[i] by {}
            assert forall|i: int| 0 <= i < groups@.len() implies groups_prefix(
                snapshot@,
                n + 1,
                (#[trigger] groups@[i]).0@,
                groups@[i].1@,
            ) by {
                if i != k {
                    assert(groups_prefix(snapshot@, n as int, before[i].0@, before[i].1@));
                } else if k < before.len() {
                    assert(groups_prefix(snapshot@, n as int, before[i].0@, before[i].1@));
                }
            }
            assert forall|i: int| 0 <= i < n + 1 implies has_group(
                groups@,
                (#[trigger] snapshot@[i]).1.name@,
            ) by {
                if i == n {
                    assert(groups@[k as int].0@ == s.name@);
                } else {
                    let g = choose|g: int|
                        0 <= g < before.len() && (#[trigger] before[g]).0@
                            == snapshot@[i].1.name@;
                    assert(groups@[g].0@ == before[g].0@);
                }
            }
        }
        n = n + 1;
    }
    proof {
        assert forall|i: int| 0 <= i < groups@.len() implies is_group(
            daemon@,
            (#[trigger] groups@[i]).0@,
            groups@[i].1@,
        ) by {
            prefix_of_all_is_group(daemon@, snapshot@, groups@[i].0@, groups@[i].1@);
        }
        assert forall|id: u64| #[trigger] daemon@.services.contains_key(id) implies has_group(
            groups@,
            daemon@.services[id].name,
        ) by {
            let i = choose|i: int| 0 <= i < snapshot@.len() && (#[trigger] snapshot@[i]).0 == id;
            assert(snapshot@[i].1@ == daemon@.services[id]);
        }
    }
    groups
}

// ---------------------------------------------------------------------------
// Forwarding
// ---------------------------------------------------------------------------

/// A response that the server itself gives: a status and a short text. Where the
/// text is empty, the response has no body.
#[derive(Clone, Copy, Debug)]
pub struct Reply {
    pub status: StatusCode,
    pub message: &'static str,
}

/// The course of a forwarded request: what the server does next.
#[derive(Debug)]
pub enum Forwarding {
    /// Read the body of the client's request.
    ReadBody { id: u64, target: String },
    /// Send the request to the backend `id`, at the URL `target`.
    Send { id: u64, target: String },
    /// Hand the backend's response on to the client.
    Relay,
    /// Answer the client; `evicted` tells whether the backend was deregistered.
    Respond { reply: Reply, evicted: bool },
}

/// What a [`Forwarding`] holds.
pub enum ForwardingView {
    ReadBody { id: u64, target: Seq<char> },
    Send { id: u64, target: Seq<char> },
    Relay,
    Respond { status: StatusCode, message: Seq<char>, evicted: bool },
}

impl View for Forwarding {
    type V = ForwardingView;

    open spec fn view(&self) -> ForwardingView {
        match self {
            Forwarding::ReadBody { id, target } => ForwardingView::ReadBody {
                id: *id,
                target: target@,
            },
            Forwarding::Send { id, target } => ForwardingView::Send { id: *id, target: target@ },
            Forwarding::Relay => ForwardingView::Relay,
            Forwarding::Respond { reply, evicted } => ForwardingView::Respond {
                status: reply.status,
                message: reply.message@,
                evicted: *evicted,
            },
        }
    }
}

/// The query as it stands behind a path.
pub open spec fn query_suffix(query: Option<Seq<char>>) -> Seq<char> {
    match query {
        Some(q) => "?"@ + q,
        None => seq![],
    }
}

/// The URL at the backend `url` to which a request for `rest` with the query
/// `query` goes.
pub open spec fn target_url(url: Seq<char>, rest: Seq<char>, query: Option<Seq<char>>) -> Seq<
    char,
> {
    url + "/"@ + rest + query_suffix(query)
}

/// The first step of a request to `/{name}/{id}/{rest}`: the backend is found
/// by its id, and its name has to match.
pub open spec fn first_step(
    registry: Registry,
    name: Seq<char>,
    id: u64,
    rest: Seq<char>,
    query: Option<Seq<char>>,
) -> ForwardingView {
    match registry.get(id) {
        None => ForwardingView::Respond {
            status: StatusCode::NotFound,
            message: "service not found"@,
            evicted: false,
        },
        Some(s) => if s.name == name {
            ForwardingView::ReadBody { id, target: target_url(s.url, rest, query) }
        } else {
            ForwardingView::Respond {
                status: StatusCode::NotFound,
                message: "service name/id mismatch"@,
                evicted: false,
            }
        },
    }
}

/// The step that follows `step`, which was taken and succeeded or not.
pub open spec fn step_after(
    registry: Registry,
    step: ForwardingView,
    succeeded: bool,
) -> ForwardingView {
    match step {
        ForwardingView::ReadBody { id, target } => if succeeded {
            ForwardingView::Send { id, target }
        } else {
            ForwardingView::Respond {
                status: StatusCode::BadRequest,
                message: "invalid request body"@,
                evicted: false,
            }
        },
        ForwardingView::Send { id, .. } => if succeeded {
            ForwardingView::Relay
        } else {
            ForwardingView::Respond {
                status: StatusCode::BadGateway,
                message: "upstream unavailable"@,
                evicted: registry.failure_evicts(id),
            }
        },
        ForwardingView::Relay => if succeeded {
            ForwardingView::Relay
        } else {
            ForwardingView::Respond {
                status: StatusCode::BadGateway,
                message: ""@,
                evicted: false,
            }
        },
        ForwardingView::Respond { .. } => step,
    }
}

/// The registry after `step` was taken and succeeded or not: only the outcome
/// of sending counts.
pub open spec fn registry_after(
    registry: Registry,
    step: ForwardingView,
    succeeded: bool,
) -> Registry {
    match step {
        ForwardingView::Send { id, .. } => if succeeded {
            registry.record_success(id)
        } else {
            registry.record_failure(id)
        },
        _ => registry,
    }
}

/// The response with `status` and `message`, which evicts no backend.
fn respond(status: StatusCode, message: &'static str) -> (r: Forwarding)
    ensures
        r@ == (ForwardingView::Respond { status, message: message@, evicted: false }),
{
    Forwarding::Respond { reply: Reply { status, message }, evicted: false }
}

/// Begin to forward a request to backend `id` (verifying its name) at
/// `/{rest}`. `rest` has no leading slash; an empty `rest` targets the backend
/// root. The query, given without its question mark, is kept.
pub fn forward(daemon: &Daemon, name: &str, id: u64, rest: &str, query: Option<&str>) -> (r:
    Forwarding)
    ensures
        r@ == first_step(daemon@, name@, id, rest@, crate::text::optional_str(query)),
{
    let service: Service = match daemon.get(id) {
        Some(s) => s,
        None => {
            return respond(StatusCode::NotFound, "service not found");
        },
    };
    if !text_eq(service.name.as_str(), name) {
        return respond(StatusCode::NotFound, "service name/id mismatch");
    }
    let suffix: String = match query {
        Some(q) => concat2("?", q),
        None => String::new(),
    };
    let target: String = concat4(service.url.as_str(), "/", rest, suffix.as_str());
    Forwarding::ReadBody { id, target }
}

/// Go on with a forwarded request, of which `step` was taken and succeeded or
/// not. A backend that answered has its failure streak cleared; a backend that
/// could not be reached has the failure counted, and only a sustained streak
/// evicts it.
pub fn forward_next(daemon: &mut Daemon, step: Forwarding, succeeded: bool) -> (r: Forwarding)
    requires
        old(daemon)@.wf(),
    ensures
        r@ == step_after(old(daemon)@, step@, succeeded),
        final(daemon)@ == registry_after(old(daemon)@, step@, succeeded),
        final(daemon)@.wf(),
{
    match step {
        Forwarding::ReadBody { id, target } => {
            if succeeded {
                Forwarding::Send { id, target }
            } else {
                respond(StatusCode::BadRequest, "invalid request body")
            }
        },
        Forwarding::Send { id, .. } => {
            if succeeded {
                daemon.record_success(id);
                Forwarding::Relay
            } else {
                let evicted: bool = daemon.record_failure(id);
                Forwarding::Respond {
                    reply: Reply {
                        status: StatusCode::BadGateway,
                        message: "upstream unavailable",
                    },
                    evicted,
                }
            }
        },
        Forwarding::Relay => {
            if succeeded {
                Forwarding::Relay
            } else {
                respond(StatusCode::BadGateway, "")
            }
        },
        Forwarding::Respond { reply, evicted } => Forwarding::Respond { reply, evicted },
    }
}

// ---------------------------------------------------------------------------
// Starting the server
// ---------------------------------------------------------------------------

/// The lines that tell, on startup, where the server is reachable: `bound` is
/// the text of the address it is bound to, `lan` the text of the machine's
/// address on the local network, if it is known.
pub open spec fn endpoint_texts(
    unspecified: bool,
    port: u16,
    bound: Seq<char>,
    lan: Option<Seq<char>>,
) -> Seq<Seq<char>> {
    let port = crate::text::decimal(port as nat);
    let title = seq!["switchelo is running:"@];
    if !unspecified {
        title.push("  http://"@ + bound + "/"@)
    } else {
        let local = title.push("  http://localhost:"@ + port + "/"@);
        match lan {
            Some(ip) => local.push("  http://"@ + ip + ":"@ + port + "/"@),
            None => local,
        }
    }
}

/// The lines that tell, on startup, where the server is reachable: it is bound
/// to `ip` and `port`, whose text is `bound`. A server bound to every interface
/// is reachable on loopback and on the local network, at `lan` if that is
/// known.
pub fn endpoint_lines(ip: &IpAddress, port: u16, bound: &str, lan: Option<&str>) -> (r: Vec<
    String,
>)
    ensures
        crate::text::texts(r@) == endpoint_texts(
            ip.unspecified(),
            port,
            bound@,
            crate::text::optional_str(lan),
        ),
{
    let mut lines: Vec<String> = Vec::new();
    lines.push("switchelo is running:".to_owned());
    if ip.is_unspecified() {
        let port_text: String = u64_text(port as u64);
        lines.push(concat3("  http://localhost:", port_text.as_str(), "/"));
        if let Some(ip) = lan {
            lines.push(concat4("  http://", ip, ":", port_text.as_str()).concat("/"));
        }
    } else {
        lines.push(concat3("  http://", bound, "/"));
    }
    assert(crate::text::texts(lines@) =~= endpoint_texts(
        ip.unspecified(),
        port,
        bound@,
        crate::text::optional_str(lan),
    ));
    lines
}

/// What the operator is told of a server that every machine can reach.
pub const PUBLIC_NOTE: &'static str =
    "note: bound to a public interface; remote clients can use the proxy, but registration stays restricted to localhost.";

/// What the operator is told, on startup, of the address that the server is
/// bound to.
pub fn bind_note(ip: &IpAddress) -> (r: Option<&'static str>)
    ensures
        match r {
            Some(note) => ip.unspecified() && note@ == PUBLIC_NOTE@,
            None => !ip.unspecified(),
        },
{
    if ip.is_unspecified() {
        Some(PUBLIC_NOTE)
    } else {
        None
    }
}

/// The status with which the program exits where the server failed.
pub const SERVE_FAILURE_STATUS: i32 = 1;

/// Why the server fails; the errors of the system are given by their text.
#[derive(Debug)]
pub enum ServeFailure {
    /// Another process is bound to the address.
    AddressInUse { addr: String },
    /// The address could not be bound.
    NotBound { addr: String, error: String },
    /// The server stopped.
    Stopped { error: String },
}

impl ServeFailure {
    /// The message that the server fails with.
    pub open spec fn text(self) -> Seq<char> {
        match self {
            ServeFailure::AddressInUse { addr } => "error: address "@ + addr@
                + " is already in use (another switchelo instance? set BIND to a free port)"@,
            ServeFailure::NotBound { addr, error } => "error: failed to bind "@ + addr@ + ": "@
                + error@,
            ServeFailure::Stopped { error } => "error: server stopped: "@ + error@,
        }
    }

    /// The message that the server fails with.
    pub fn message(&self) -> (r: String)
        ensures
            r@ == self.text(),
    {
        match self {
            ServeFailure::AddressInUse { addr } => concat3(
                "error: address ",
                addr.as_str(),
                " is already in use (another switchelo instance? set BIND to a free port)",
            ),
            ServeFailure::NotBound { addr, error } => concat4(
                "error: failed to bind ",
                addr.as_str(),
                ": ",
                error.as_str(),
            ),
            ServeFailure::Stopped { error } => concat2("error: server stopped: ", error.as_str()),
        }
    }
}

} // verus!
