//! The core daemon: an in-memory service registry plus the operations that act
//! on it. This module is transport-agnostic: it knows nothing about HTTP or
//! the command line. The front-ends (see [`crate::inputs`]) drive it by calling
//! these methods, which keeps the registry logic decoupled from how requests
//! arrive.
//!
//! The contracts speak of a [`Registry`], the mathematical state of a
//! [`Daemon`], and of its transitions.

use std::collections::HashMap;

use vstd::prelude::*;

use crate::text::{concat2, starts_with, trim_end_slashes};

verus! {

/// How many *consecutive* forwarding failures a service may accumulate before
/// it is deregistered. A single success resets the count, so only a sustained
/// outage evicts the backend.
pub const MAX_FAILURES: u32 = 3;

/// How long, in seconds, the proxy may take to connect to a backend.
pub const CONNECT_TIMEOUT_SECS: u64 = 5;

/// How long, in seconds, a backend may stay silent between two reads. It bounds
/// idle stalls without killing legitimately long streams.
pub const READ_TIMEOUT_SECS: u64 = 30;

// ---------------------------------------------------------------------------
// The model
// ---------------------------------------------------------------------------

/// What a [`Service`] holds.
pub struct ServiceView {
    pub name: Seq<char>,
    pub url: Seq<char>,
    pub description: Seq<char>,
    pub failures: nat,
}

/// The state of a [`Daemon`]: the registered services by id, and the id that
/// the next new service gets.
#[verifier::ext_equal]
pub struct Registry {
    pub services: Map<u64, ServiceView>,
    pub next_id: u64,
}

/// `url` has a scheme that the proxy can forward to.
pub open spec fn supported_scheme(url: Seq<char>) -> bool {
    "http://"@.is_prefix_of(url) || "https://"@.is_prefix_of(url)
}

/// Why a registration of `url` is refused.
pub open spec fn unsupported_scheme_message(url: Seq<char>) -> Seq<char> {
    "unsupported URL scheme (expected http:// or https://): "@ + url
}

/// The id that is handed out after `id`. The counter wraps around.
pub open spec fn id_after(id: u64) -> u64 {
    if id == u64::MAX {
        0
    } else {
        (id + 1) as u64
    }
}

impl ServiceView {
    /// What a registered service satisfies: its address can be forwarded to and
    /// has no slash at its end, and its failure streak is below the limit.
    pub open spec fn wf(self) -> bool {
        &&& supported_scheme(self.url)
        &&& self.url.last() != '/'
        &&& self.failures < MAX_FAILURES
    }

    /// The service after a successful forward.
    pub open spec fn after_success(self) -> ServiceView {
        ServiceView { failures: 0, ..self }
    }

    /// The service after a forwarding failure that it survives.
    pub open spec fn after_failure(self) -> ServiceView {
        ServiceView { failures: self.failures + 1, ..self }
    }
}

impl Registry {
    /// What holds of the registry between any two operations: the services are
    /// finitely many, each is well-formed, and no two share an address.
    pub open spec fn wf(self) -> bool {
        &&& self.services.dom().finite()
        &&& forall|id: u64| #[trigger] self.services.contains_key(id) ==> self.services[id].wf()
        &&& forall|a: u64, b: u64|
            #[trigger] self.services.contains_key(a) && #[trigger] self.services.contains_key(b)
                && self.services[a].url == self.services[b].url ==> a == b
    }

    /// Every registered id was handed out since the id counter started: true as
    /// long as the counter has not wrapped around.
    pub open spec fn ids_below_next(self) -> bool {
        forall|id: u64| #[trigger] self.services.contains_key(id) ==> id < self.next_id
    }

    /// The registry of a new daemon.
    pub open spec fn empty() -> Registry {
        Registry { services: Map::empty(), next_id: 0 }
    }

    /// Some service is registered under the address `url`.
    pub open spec fn has_url(self, url: Seq<char>) -> bool {
        exists|id: u64| #[trigger] self.services.contains_key(id) && self.services[id].url == url
    }

    /// The id of the service at the address `url`.
    pub open spec fn id_of_url(self, url: Seq<char>) -> u64
        recommends
            self.has_url(url),
    {
        choose|id: u64| #[trigger] self.services.contains_key(id) && self.services[id].url == url
    }

    /// What registering at `url` answers: the id of the service that has that
    /// address, or the next id, or the reason for refusing.
    pub open spec fn register_result(self, url: Seq<char>) -> Result<u64, Seq<char>> {
        let base = crate::text::trimmed(url);
        if !supported_scheme(base) {
            Err(unsupported_scheme_message(base))
        } else if self.has_url(base) {
            Ok(self.id_of_url(base))
        } else {
            Ok(self.next_id)
        }
    }

    /// Registering at `url` hands out the greatest id, behind which the counter
    /// starts again.
    pub open spec fn wraps_around(self, url: Seq<char>) -> bool {
        &&& self.next_id == u64::MAX
        &&& self.register_result(url) is Ok
        &&& !self.has_url(crate::text::trimmed(url))
    }

    /// The registry after registering `name` at `url`.
    pub open spec fn register(
        self,
        name: Seq<char>,
        url: Seq<char>,
        description: Seq<char>,
    ) -> Registry {
        let base = crate::text::trimmed(url);
        match self.register_result(url) {
            Err(_) => self,
            Ok(id) => Registry {
                services: self.services.insert(
                    id,
                    ServiceView { name, url: base, description, failures: 0 },
                ),
                next_id: if self.has_url(base) {
                    self.next_id
                } else {
                    id_after(self.next_id)
                },
            },
        }
    }

    /// The registry without the service `id`.
    pub open spec fn unregister(self, id: u64) -> Registry {
        Registry { services: self.services.remove(id), ..self }
    }

    /// The registry after a successful forward to `id`.
    pub open spec fn record_success(self, id: u64) -> Registry {
        if self.services.contains_key(id) {
            Registry {
                services: self.services.insert(id, self.services[id].after_success()),
                ..self
            }
        } else {
            self
        }
    }

    /// One more forwarding failure evicts the service `id`.
    pub open spec fn failure_evicts(self, id: u64) -> bool {
        self.services.contains_key(id) && self.services[id].failures + 1 >= MAX_FAILURES
    }

    /// The registry after a forwarding failure of `id`.
    pub open spec fn record_failure(self, id: u64) -> Registry {
        if self.failure_evicts(id) {
            self.unregister(id)
        } else if self.services.contains_key(id) {
            Registry {
                services: self.services.insert(id, self.services[id].after_failure()),
                ..self
            }
        } else {
            self
        }
    }

    /// The service `id`, if it is registered.
    pub open spec fn get(self, id: u64) -> Option<ServiceView> {
        if self.services.contains_key(id) {
            Some(self.services[id])
        } else {
            None
        }
    }

    /// `list` holds every registered service exactly once, in ascending order of
    /// the ids.
    pub open spec fn is_snapshot(self, list: Seq<(u64, Service)>) -> bool {
        &&& forall|i: int, j: int| 0 <= i < j < list.len() ==> (#[trigger] list[i]).0 < (
        #[trigger] list[j]).0
        &&& forall|i: int|
            0 <= i < list.len() ==> self.services.contains_key((#[trigger] list[i]).0)
                && list[i].1@ == self.services[list[i].0]
        &&& forall|id: u64| #[trigger]
            self.services.contains_key(id) ==> exists|i: int|
                0 <= i < list.len() && (#[trigger] list[i]).0 == id
    }
}

// ---------------------------------------------------------------------------
// The service
// ---------------------------------------------------------------------------

/// A registered backend service.
#[derive(Debug)]
pub struct Service {
    pub name: String,
    /// Backend base address, e.g. http://127.0.0.1:8081
    pub url: String,
    pub description: String,
    /// Consecutive forwarding failures; reset on any success.
    pub failures: u32,
}

impl View for Service {
    type V = ServiceView;

    open spec fn view(&self) -> ServiceView {
        ServiceView {
            name: self.name@,
            url: self.url@,
            description: self.description@,
            failures: self.failures as nat,
        }
    }
}

impl Clone for Service {
    fn clone(&self) -> (r: Service)
        ensures
            r@ == self@,
    {
        Service {
            name: self.name.clone(),
            url: self.url.clone(),
            description: self.description.clone(),
            failures: self.failures,
        }
    }
}

/// The ids of `list` ascend strictly.
spec fn ascending(list: Seq<(u64, Service)>) -> bool {
    forall|i: int, j: int| 0 <= i < j < list.len() ==> (#[trigger] list[i]).0 < (
    #[trigger] list[j]).0
}

/// `list` holds an entry for `id`.
spec fn lists(list: Seq<(u64, Service)>, id: u64) -> bool {
    exists|i: int| 0 <= i < list.len() && (#[trigger] list[i]).0 == id
}

/// `id` is among the first `n` ids of a walk through the services.
spec fn walked(walk: Seq<(&u64, &Service)>, n: int, id: u64) -> bool {
    exists|j: int| 0 <= j < n && *(#[trigger] walk[j]).0 == id
}

/// Insert an entry into a list in ascending order of the ids, and return its
/// position.
fn insert_ascending(list: &mut Vec<(u64, Service)>, id: u64, s: Service) -> (at: usize)
    requires
        ascending(old(list)@),
        !lists(old(list)@, id),
    ensures
        at <= old(list)@.len(),
        final(list)@ == old(list)@.insert(at as int, (id, s)),
        ascending(final(list)@),
{
    let mut at: usize = list.len();
    while at > 0 && list[at - 1].0 > id
        invariant
            at <= list.len(),
            list@ == old(list)@,
            ascending(list@),
            forall|i: int| at <= i < list@.len() ==> id < (#[trigger] list@[i]).0,
        decreases at,
    {
        at = at - 1;
    }
    proof {
        if at > 0 {
            assert(list@[at - 1].0 != id);
        }
    }
    list.insert(at, (id, s));
    at
}

// ---------------------------------------------------------------------------
// The daemon
// ---------------------------------------------------------------------------

/// The daemon's state: the registered services and an auto-increment id
/// generator.
pub struct Daemon {
    services: HashMap<u64, Service>,
    next_id: u64,
}

impl View for Daemon {
    type V = Registry;

    closed spec fn view(&self) -> Registry {
        Registry {
            services: self.services@.map_values(|s: Service| s@),
            next_id: self.next_id,
        }
    }
}

/// What registering answered, with the text of a refusal as its characters.
pub open spec fn register_result_view(r: Result<u64, String>) -> Result<u64, Seq<char>> {
    match r {
        Ok(id) => Ok(id),
        Err(e) => Err(e@),
    }
}

impl Default for Daemon {
    fn default() -> (r: Self)
        ensures
            r@ == Registry::empty(),
            r@.wf(),
    {
        Self::new()
    }
}

impl Daemon {
    /// A daemon with no services, whose first id is 0.
    pub fn new() -> (r: Self)
        ensures
            r@ == Registry::empty(),
            r@.wf(),
    {
        let r = Daemon { services: HashMap::new(), next_id: 0 };
        assert(r@.services =~= Map::<u64, ServiceView>::empty());
        r
    }

    /// The id of the service at the address `url`, without a slash at its end, if
    /// there is one.
    pub fn find_url(&self, url: &String) -> (r: Option<u64>)
        ensures
            match r {
                Some(id) => self@.services.contains_key(id) && self@.services[id].url == url@,
                None => !self@.has_url(url@),
            },
    {
        for kv in it: self.services.iter()
            invariant
                it.seq() == vstd::std_specs::iter::IteratorSpec::remaining(&self.services.iter()),
                forall|i: int| 0 <= i < it.index() ==> (#[trigger] it.seq()[i]).1.url@ != url@,
        {
            let (id, s) = kv;
            if s.url == *url {
                assert(self.services@.contains_key(*it.seq()[it.index() as int].0));
                return Some(*id);
            }
        }
        proof {
            if self@.has_url(url@) {
                let id = self@.id_of_url(url@);
                assert(self.services@.contains_key(id));
                let walk = vstd::std_specs::iter::IteratorSpec::remaining(&self.services.iter());
                assert(walk.contains((&id, &self.services@[id])));
            }
        }
        None
    }

    /// Register a backend service and return its id.
    ///
    /// Idempotent by `url`: a repeated report from the same backend reuses the
    /// existing id and refreshes its name/description. The trailing slash is
    /// normalized so `http://host:8081` and `http://host:8081/` are the same
    /// backend.
    /// Returns `Err` with a human-readable reason if the URL scheme is not one
    /// we can forward to (only `http://` and `https://` are supported).
    pub fn register(&mut self, name: String, url: String, description: String) -> (r: Result<
        u64,
        String,
    >)
        requires
            old(self)@.wf(),
        ensures
            register_result_view(r) == old(self)@.register_result(url@),
            final(self)@ == old(self)@.register(name@, url@, description@),
            final(self)@.wf(),
    {
        // Trim trailing slash to avoid double slashes when forwarding.
        let base: String = trim_end_slashes(url.as_str());
        if !(starts_with(base.as_str(), "http://") || starts_with(base.as_str(), "https://")) {
            return Err(
                concat2(
                    "unsupported URL scheme (expected http:// or https://): ",
                    base.as_str(),
                ),
            );
        }
        proof {
            crate::text::trimmed_ends_without_slash(url@);
            reveal_strlit("http://");
            reveal_strlit("https://");
        }
        let id: u64 = match self.find_url(&base) {
            Some(id) => id,
            None => {
                let id: u64 = self.next_id;
                self.next_id = id.wrapping_add(1);
                id
            },
        };
        // A fresh report is a healthy signal: it clears any stale failures.
        let service = Service { name, url: base, description, failures: 0 };
        self.services.insert(id, service);
        assert(self@.services =~= old(self)@.services.insert(id, service@));
        Ok(id)
    }

    /// Remove a service by id. Returns `true` if a service with that id existed.
    pub fn unregister(&mut self, id: u64) -> (r: bool)
        requires
            old(self)@.wf(),
        ensures
            r == old(self)@.services.contains_key(id),
            final(self)@ == old(self)@.unregister(id),
            final(self)@.wf(),
    {
        let r: bool = self.services.remove(&id).is_some();
        assert(self@.services =~= old(self)@.services.remove(id));
        r
    }

    /// Record a successful forward to `id`, clearing its failure streak.
    pub fn record_success(&mut self, id: u64)
        requires
            old(self)@.wf(),
        ensures
            final(self)@ == old(self)@.record_success(id),
            final(self)@.wf(),
    {
        if let Some(mut s) = self.services.remove(&id) {
            s.failures = 0;
            self.services.insert(id, s);
            assert(self@.services =~= old(self)@.services.insert(id, s@));
        } else {
            assert(self@.services =~= old(self)@.services);
        }
    }

    /// Record a forwarding failure for `id`. Once the streak reaches
    /// [`MAX_FAILURES`] the service is deregistered; returns `true` in that case.
    pub fn record_failure(&mut self, id: u64) -> (r: bool)
        requires
            old(self)@.wf(),
        ensures
            r == old(self)@.failure_evicts(id),
            final(self)@ == old(self)@.record_failure(id),
            final(self)@.wf(),
    {
        assert(old(self)@.services.contains_key(id) ==> old(self)@.services[id].wf());
        let mut s: Service = match self.services.remove(&id) {
            Some(s) => s,
            None => {
                assert(self@.services =~= old(self)@.services);
                return false;
            },
        };
        s.failures = s.failures + 1;
        if s.failures < MAX_FAILURES {
            self.services.insert(id, s);
            assert(self@.services =~= old(self)@.services.insert(id, s@));
            return false;
        }
        assert(self@.services =~= old(self)@.services.remove(id));
        true
    }

    /// Snapshot of every registered service, sorted by id. The front-ends shape
    /// this into whatever view they expose.
    pub fn snapshot(&self) -> (list: Vec<(u64, Service)>)
        ensures
            self@.is_snapshot(list@),
    {
        let mut list: Vec<(u64, Service)> = Vec::new();
        for kv in it: self.services.iter()
            invariant
                it.seq() == vstd::std_specs::iter::IteratorSpec::remaining(&self.services.iter()),
                it.seq().no_duplicates(),
                ascending(list@),
                forall|i: int|
                    0 <= i < list@.len() ==> self.services@.contains_key((#[trigger] list@[i]).0)
                        && list@[i].1@ == self.services@[list@[i].0]@,
                forall|i: int|
                    0 <= i < it.index() ==> lists(list@, *(#[trigger] it.seq()[i]).0),
                forall|i: int|
                    0 <= i < list@.len() ==> walked(
                        it.seq(),
                        it.index(),
                        (#[trigger] list@[i]).0,
                    ),
        {
            let (id, s) = kv;
            let ghost before = list@;
            let ghost n = it.index();
            proof {
                assert(self.services@.contains_key(*it.seq()[n].0));
                if lists(before, *id) {
                    let i = choose|i: int| 0 <= i < before.len() && (#[trigger] before[i]).0 == *id;
                    let j = choose|j: int|
                        0 <= j < n && *(#[trigger] it.seq()[j]).0 == before[i].0;
                    assert(self.services@.contains_key(*it.seq()[j].0));
                    assert(it.seq()[j] == it.seq()[n]);
                }
            }
            let at: usize = insert_ascending(&mut list, *id, s.clone());
            proof {
                assert(list@[at as int].0 == *id);
                assert forall|i: int| 0 <= i < n + 1 implies lists(
                    list@,
                    *(#[trigger] it.seq()[i]).0,
                ) by {
                    if i < n {
                        let k = choose|k: int|
                            0 <= k < before.len() && (#[trigger] before[k]).0 == *it.seq()[i].0;
                        assert(list@[if k < at { k } else { k + 1 }] == before[k]);
                    }
                }
                assert forall|i: int| 0 <= i < list@.len() implies walked(
                    it.seq(),
                    n + 1,
                    (#[trigger] list@[i]).0,
                ) by {
                    if i == at {
                        assert(*it.seq()[n].0 == list@[i].0);
                    } else {
                        let k = if i < at { i } else { i - 1 };
                        assert(list@[i] == before[k]);
                        let j = choose|j: int|
                            0 <= j < n && *(#[trigger] it.seq()[j]).0 == before[k].0;
                        assert(*it.seq()[j].0 == list@[i].0);
                    }
                }
            }
        }
        proof {
            let walk = vstd::std_specs::iter::IteratorSpec::remaining(&self.services.iter());
            assert forall|id: u64| #[trigger] self@.services.contains_key(id) implies lists(
                list@,
                id,
            ) by {
                assert(self.services@.contains_key(id));
                assert(walk.contains((&id, &self.services@[id])));
                let i = choose|i: int|
                    0 <= i < walk.len() && walk[i] == (&id, &self.services@[id]);
                assert(lists(list@, *walk[i].0));
            }
        }
        list
    }

    /// Look up a single service by id.
    pub fn get(&self, id: u64) -> (r: Option<Service>)
        ensures
            match r {
                Some(s) => self@.get(id) == Some(s@),
                None => self@.get(id) is None,
            },
    {
        match self.services.get(&id) {
            Some(s) => Some(s.clone()),
            None => None,
        }
    }
}

} // verus!
