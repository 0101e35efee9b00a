use vstd::prelude::*;
use vstd::string::StringExecFns;

use crate::endpoint::{EndPoint, Method};
use crate::results::{RequestOutcome, Results};
use crate::seq_sum::{
    lemma_sum_of_bounds_element, lemma_sum_of_pointwise, lemma_sum_of_push, lemma_sum_of_update,
    sum_of,
};
use crate::Status;

verus! {

/// Planned behaviour profiles for virtual clients.  Only the default
/// (uniform endpoint selection with a uniform sleep) is implemented; the
/// variants are kept for configuration compatibility.
#[derive(Clone, Copy, Debug)]
pub enum UserBehaviour {
    AGGRESSIVE,
    PASSIVE,
    LAZY,
}

/// The plain configuration shape of one virtual client, as it travels over
/// the control channel; `into_user` turns it into a live client.
#[derive(Debug)]
pub struct SerDeserUser {
    pub status: Status,
    pub id: String,
    pub sleep: (u64, u64),
    pub host: String,
    pub endpoints: Vec<crate::endpoint::SerDeserEndpoint>,
    pub global_endpoints: Vec<crate::endpoint::SerDeserEndpoint>,
    pub global_headers: Option<Vec<(String, String)>>,
}

impl SerDeserUser {
    /// A live client built from this configuration: freshly `CREATED`, with
    /// empty counters, whatever status the configuration carried.  The
    /// endpoint lists are configuration for the test that owns the client
    /// and are not kept on the client itself.
    pub fn into_user(self) -> (r: User)
        ensures
            r.id == self.id,
            r.sleep == self.sleep,
            r.host == self.host,
            r.global_headers == self.global_headers,
            r.status == Status::CREATED,
            r.results == Results::empty(),
            r.endpoints@.len() == 0,
            r.wf(),
    {
        User::new(self.id, self.sleep, self.host, self.global_headers)
    }
}

/// The pair list an optional header map stands for: its pairs, or none.
pub open spec fn opt_pairs(o: Option<Vec<(String, String)>>) -> Seq<(String, String)> {
    match o {
        Option::Some(v) => v@,
        Option::None => Seq::empty(),
    }
}

/// Last-wins lookup in a key/value pair list: the value of the latest pair
/// whose key is `key`, if any.
pub open spec fn header_lookup(pairs: Seq<(String, String)>, key: Seq<char>) -> Option<Seq<char>>
    decreases pairs.len(),
{
    if pairs.len() == 0 {
        None
    } else if pairs.last().0@ == key {
        Some(pairs.last().1@)
    } else {
        header_lookup(pairs.drop_last(), key)
    }
}

/// Law: in a concatenation of global headers followed by endpoint headers,
/// an endpoint pair overrides a global pair with the same key, and keys the
/// endpoint does not set keep their global value.
pub proof fn lemma_endpoint_headers_override(
    global: Seq<(String, String)>,
    endpoint: Seq<(String, String)>,
    key: Seq<char>,
)
    ensures
        header_lookup(global + endpoint, key) == if header_lookup(endpoint, key) is Some {
            header_lookup(endpoint, key)
        } else {
            header_lookup(global, key)
        },
    decreases endpoint.len(),
{
    if endpoint.len() == 0 {
        assert(global + endpoint =~= global);
    } else {
        let merged = global + endpoint;
        assert(merged.last() == endpoint.last());
        if endpoint.last().0@ != key {
            assert(merged.drop_last() =~= global + endpoint.drop_last());
            lemma_endpoint_headers_override(global, endpoint.drop_last(), key);
        }
    }
}

/// A fully computed request: everything the transport needs in plain values.
/// The method, final URL, merged header list, query parameters (`GET` only)
/// and body (`POST`/`PUT` only) for one cycle of a virtual client.
pub struct RequestPlan {
    pub method: Method,
    pub url: String,
    pub headers: Vec<(String, String)>,
    pub params: Option<Vec<(String, String)>>,
    pub body: Option<String>,
}

/// One virtual client: an identity, a sleep range, a lifecycle status, its
/// own aggregated `Results`, and a per-endpoint-URL breakdown of those
/// results.
///
/// The per-URL breakdown is a pair list with unique keys; `wf()` ties the
/// client's own counters to the sums over that breakdown.
#[derive(Debug)]
pub struct User {
    pub id: String,
    pub sleep: (u64, u64),
    pub host: String,
    pub global_headers: Option<Vec<(String, String)>>,
    pub status: Status,
    pub results: Results,
    pub endpoints: Vec<(String, Results)>,
}

/// Contribution spec functions for the per-URL breakdown sums.
pub open spec fn entry_requests() -> spec_fn((String, Results)) -> int {
    |e: (String, Results)| e.1.total_requests as int
}

pub open spec fn entry_failed() -> spec_fn((String, Results)) -> int {
    |e: (String, Results)| e.1.total_failed as int
}

pub open spec fn entry_connection_errors() -> spec_fn((String, Results)) -> int {
    |e: (String, Results)| e.1.total_connection_errors as int
}

pub open spec fn entry_response_time() -> spec_fn((String, Results)) -> int {
    |e: (String, Results)| e.1.total_response_time_ms as int
}

/// The counters recorded under `url`: the latest matching entry's, or empty
/// counters where no request for `url` was recorded yet.
pub open spec fn map_lookup(m: Seq<(String, Results)>, url: Seq<char>) -> Results
    decreases m.len(),
{
    if m.len() == 0 {
        Results::empty()
    } else if m.last().0@ == url {
        m.last().1
    } else {
        map_lookup(m.drop_last(), url)
    }
}

/// Where no entry is keyed by `url`, nothing is recorded under it.
proof fn lemma_map_lookup_absent(m: Seq<(String, Results)>, url: Seq<char>)
    requires
        forall|j: int| 0 <= j < m.len() ==> (#[trigger] m[j]).0@ != url,
    ensures
        map_lookup(m, url) == Results::empty(),
    decreases m.len(),
{
    if m.len() > 0 {
        lemma_map_lookup_absent(m.drop_last(), url);
    }
}

/// Appending an entry sets its key's record and leaves every other key's
/// record unchanged.
proof fn lemma_map_lookup_push(m: Seq<(String, Results)>, e: (String, Results), u: Seq<char>)
    ensures
        map_lookup(m.push(e), e.0@) == e.1,
        u != e.0@ ==> map_lookup(m.push(e), u) == map_lookup(m, u),
{
    let t = m.push(e);
    assert(t.last() == e);
    assert(t.drop_last() =~= m);
}

/// With unique keys, what is recorded under the key of the entry at `k` is
/// exactly that entry's counters.
proof fn lemma_map_lookup_at(m: Seq<(String, Results)>, k: int)
    requires
        0 <= k < m.len(),
        forall|i: int, j: int| 0 <= i < j < m.len() ==> m[i].0@ != m[j].0@,
    ensures
        map_lookup(m, m[k].0@) == m[k].1,
    decreases m.len(),
{
    if k < m.len() - 1 {
        assert(m.last().0@ != m[k].0@);
        assert(m.drop_last()[k] == m[k]);
        lemma_map_lookup_at(m.drop_last(), k);
    }
}

/// With unique keys, replacing the counters of the entry at `k` changes what
/// is recorded under that entry's key to exactly those counters, and nothing
/// recorded under any other key.
proof fn lemma_map_lookup_update(m: Seq<(String, Results)>, k: int, e: (String, Results), u: Seq<char>)
    requires
        0 <= k < m.len(),
        e.0@ == m[k].0@,
        forall|i: int, j: int| 0 <= i < j < m.len() ==> m[i].0@ != m[j].0@,
    ensures
        map_lookup(m.update(k, e), m[k].0@) == e.1,
        u != m[k].0@ ==> map_lookup(m.update(k, e), u) == map_lookup(m, u),
    decreases m.len(),
{
    let t = m.update(k, e);
    if k == m.len() - 1 {
        assert(t.last() == e);
        assert(t.drop_last() =~= m.drop_last());
    } else {
        assert(t.last() == m.last());
        assert(m.last().0@ != m[k].0@);
        assert(t.drop_last() =~= m.drop_last().update(k, e));
        assert(m.drop_last()[k] == m[k]);
        lemma_map_lookup_update(m.drop_last(), k, e, u);
    }
}

impl User {
    /// No two entries of the per-URL breakdown share a key.
    pub open spec fn keys_unique(self) -> bool {
        forall|i: int, j: int|
            0 <= i < j < self.endpoints@.len() ==> self.endpoints@[i].0@ != self.endpoints@[j].0@
    }

    /// The client's own counters are exactly the sums of its per-URL
    /// breakdown, every recorded `Results` value keeps its derived average,
    /// and no two breakdown entries share a URL.
    pub open spec fn wf(self) -> bool {
        &&& self.keys_unique()
        &&& self.results.total_requests == sum_of(
            self.endpoints@,
            entry_requests(),
        )
        &&& self.results.total_failed == sum_of(self.endpoints@, entry_failed())
        &&& self.results.total_connection_errors == sum_of(
            self.endpoints@,
            entry_connection_errors(),
        )
        &&& self.results.total_response_time_ms == sum_of(
            self.endpoints@,
            entry_response_time(),
        )
        &&& self.results.wf()
        &&& forall|i: int| 0 <= i < self.endpoints@.len() ==> (#[trigger] self.endpoints@[i]).1.wf()
    }

    /// Everything but the lifecycle status: what a pure status transition
    /// must leave alone.
    pub open spec fn same_but_status(self, other: User) -> bool {
        &&& self.id == other.id
        &&& self.sleep == other.sleep
        &&& self.host == other.host
        &&& self.global_headers == other.global_headers
        &&& self.results == other.results
        &&& self.endpoints == other.endpoints
    }

    pub fn new(
        id: String,
        sleep: (u64, u64),
        host: String,
        global_headers: Option<Vec<(String, String)>>,
    ) -> (r: User)
        ensures
            r.id == id,
            r.sleep == sleep,
            r.host == host,
            r.global_headers == global_headers,
            r.status == Status::CREATED,
            r.results == Results::empty(),
            r.endpoints@ =~= Seq::<(String, Results)>::empty(),
            r.wf(),
    {
        User {
            id,
            sleep,
            host,
            global_headers,
            status: Status::CREATED,
            results: Results::new(),
            endpoints: Vec::new(),
        }
    }

    /// Entering the execution loop: `CREATED` becomes `RUNNING`; any other
    /// status — in particular a cancellation that won the race before the
    /// loop began — is left exactly as it is.
    pub fn start(&mut self)
        ensures
            final(self).status == crate::start_transition(old(self).status),
            final(self).same_but_status(*old(self)),
    {
        if self.status == Status::CREATED {
            self.status = Status::RUNNING;
        }
    }

    /// An external stop always sets `STOPPED`, whatever came before.
    pub fn stop(&mut self)
        ensures
            final(self).status == crate::stop_transition(old(self).status),
            final(self).status == Status::STOPPED,
            final(self).same_but_status(*old(self)),
    {
        self.status = Status::STOPPED;
    }

    /// An external finish sets `FINISHED` unless the client is already
    /// `STOPPED`: stop wins.
    pub fn finish(&mut self)
        ensures
            final(self).status == crate::finish_transition(old(self).status),
            final(self).same_but_status(*old(self)),
    {
        match self.status {
            Status::STOPPED => {},
            _ => {
                self.status = Status::FINISHED;
            },
        }
    }

    /// The index of the breakdown entry keyed by `url`, if any.
    fn find_entry(endpoints: &Vec<(String, Results)>, url: &String) -> (r: Option<usize>)
        ensures
            match r {
                Option::Some(k) => k < endpoints@.len() && endpoints@[k as int].0@ == url@,
                Option::None => forall|j: int|
                    0 <= j < endpoints@.len() ==> (#[trigger] endpoints@[j]).0@ != url@,
            },
    {
        let n = endpoints.len();
        let mut i: usize = 0;
        while i < n
            invariant
                n == endpoints@.len(),
                i <= n,
                forall|j: int| 0 <= j < i ==> (#[trigger] endpoints@[j]).0@ != url@,
            decreases n - i,
        {
            if endpoints[i].0 == *url {
                return Some(i);
            }
            i = i + 1;
        }
        None
    }

    /// Fold one classified outcome into this client's own counters and into
    /// its per-URL breakdown under `url`.  Only a `RUNNING` client records:
    /// a stopped or finished client's counters are frozen.
    pub fn record_outcome(&mut self, url: &String, outcome: &RequestOutcome)
        requires
            old(self).wf(),
            old(self).status == Status::RUNNING,
            old(self).results.can_record(*outcome),
        ensures
            final(self).results == old(self).results.after_outcome(*outcome),
            final(self).wf(),
            final(self).status == old(self).status,
            final(self).id == old(self).id,
            final(self).sleep == old(self).sleep,
            final(self).host == old(self).host,
            final(self).global_headers == old(self).global_headers,
            map_lookup(final(self).endpoints@, url@) == map_lookup(
                old(self).endpoints@,
                url@,
            ).after_outcome(*outcome),
            forall|u: Seq<char>|
                u != url@ ==> #[trigger] map_lookup(final(self).endpoints@, u) == map_lookup(
                    old(self).endpoints@,
                    u,
                ),
    {
        let ghost m0 = self.endpoints@;
        match Self::find_entry(&self.endpoints, url) {
            Option::Some(k) => {
                proof {
                    lemma_sum_of_bounds_element(m0, entry_requests(), k as int);
                    lemma_sum_of_bounds_element(m0, entry_failed(), k as int);
                    lemma_sum_of_bounds_element(m0, entry_connection_errors(), k as int);
                    lemma_sum_of_bounds_element(m0, entry_response_time(), k as int);
                }
                let entry = &mut self.endpoints[k];
                entry.1.record_outcome(outcome);
                proof {
                    let m1 = self.endpoints@;
                    lemma_sum_of_update(m0, entry_requests(), k as int, m1[k as int]);
                    lemma_sum_of_update(m0, entry_failed(), k as int, m1[k as int]);
                    lemma_sum_of_update(m0, entry_connection_errors(), k as int, m1[k as int]);
                    lemma_sum_of_update(m0, entry_response_time(), k as int, m1[k as int]);
                    assert(m1 =~= m0.update(k as int, m1[k as int]));
                    assert(map_lookup(m1, url@) == map_lookup(m0, url@).after_outcome(*outcome))
                        by {
                        lemma_map_lookup_update(m0, k as int, m1[k as int], url@);
                        lemma_map_lookup_at(m0, k as int);
                    }
                    assert forall|u: Seq<char>| u != url@ implies #[trigger] map_lookup(m1, u)
                        == map_lookup(m0, u) by {
                        lemma_map_lookup_update(m0, k as int, m1[k as int], u);
                    }
                }
            },
            Option::None => {
                let mut fresh = Results::new();
                fresh.record_outcome(outcome);
                self.endpoints.push((url.clone(), fresh));
                proof {
                    let m1 = self.endpoints@;
                    let e = m1.last();
                    lemma_sum_of_push(m0, entry_requests(), e);
                    lemma_sum_of_push(m0, entry_failed(), e);
                    lemma_sum_of_push(m0, entry_connection_errors(), e);
                    lemma_sum_of_push(m0, entry_response_time(), e);
                    lemma_map_lookup_push(m0, e, url@);
                    lemma_map_lookup_absent(m0, url@);
                    assert(map_lookup(m1, url@) == map_lookup(m0, url@).after_outcome(*outcome));
                    assert forall|u: Seq<char>| u != url@ implies #[trigger] map_lookup(m1, u)
                        == map_lookup(m0, u) by {
                        lemma_map_lookup_push(m0, e, u);
                    }
                }
            },
        }
        self.results.record_outcome(outcome);
    }

    /// Copy a pair list, element for element.
    pub(crate) fn clone_pairs(src: &Vec<(String, String)>) -> (r: Vec<(String, String)>)
        ensures
            r@ == src@,
    {
        let mut r: Vec<(String, String)> = Vec::new();
        let n = src.len();
        let mut i: usize = 0;
        while i < n
            invariant
                n == src@.len(),
                i <= n,
                r@ == src@.subrange(0, i as int),
            decreases n - i,
        {
            r.push((src[i].0.clone(), src[i].1.clone()));
            proof {
                assert(r@ =~= src@.subrange(0, i + 1 as int));
            }
            i = i + 1;
        }
        proof {
            assert(r@ =~= src@);
        }
        r
    }

    /// Append a copy of every pair of `src` to `dst`, in order.
    fn append_pairs(dst: &mut Vec<(String, String)>, src: &Vec<(String, String)>)
        ensures
            final(dst)@ == old(dst)@ + src@,
    {
        let n = src.len();
        let mut i: usize = 0;
        while i < n
            invariant
                n == src@.len(),
                i <= n,
                dst@ == old(dst)@ + src@.subrange(0, i as int),
            decreases n - i,
        {
            dst.push((src[i].0.clone(), src[i].1.clone()));
            proof {
                assert(dst@ =~= old(dst)@ + src@.subrange(0, i + 1 as int));
            }
            i = i + 1;
        }
        proof {
            assert(dst@ =~= old(dst)@ + src@);
        }
    }

    /// Compute the request for one cycle against the given endpoint: the
    /// final URL is the host followed by the endpoint's path; the header
    /// list is the global headers followed by the endpoint's own, so that an
    /// endpoint header overrides a global one under last-wins lookup (see
    /// `lemma_endpoint_headers_override`); query parameters ride along for
    /// `GET` only, the body for `POST` and `PUT` only.
    pub fn plan_request(&self, endpoint: &EndPoint) -> (r: RequestPlan)
        ensures
            r.method == endpoint.method,
            r.url@ == self.host@ + endpoint.url@,
            r.headers@ == opt_pairs(self.global_headers) + opt_pairs(endpoint.headers),
            r.params is Some <==> (endpoint.method == Method::GET && endpoint.params is Some),
            r.params is Some ==> r.params->0@ == endpoint.params->0@,
            r.body is Some <==> ((endpoint.method == Method::POST || endpoint.method
                == Method::PUT) && endpoint.body is Some),
            r.body is Some ==> r.body->0@ == endpoint.body->0@,
    {
        let url = self.host.clone().concat(endpoint.url.as_str());
        let mut headers: Vec<(String, String)> = match &self.global_headers {
            Option::Some(g) => Self::clone_pairs(g),
            Option::None => Vec::new(),
        };
        match &endpoint.headers {
            Option::Some(h) => Self::append_pairs(&mut headers, h),
            Option::None => {
                proof {
                    assert(headers@ =~= headers@ + opt_pairs(endpoint.headers));
                }
            },
        }
        let params: Option<Vec<(String, String)>> = match endpoint.method {
            Method::GET => match &endpoint.params {
                Option::Some(p) => Some(Self::clone_pairs(p)),
                Option::None => None,
            },
            _ => None,
        };
        let body: Option<String> = match endpoint.method {
            Method::POST | Method::PUT => match &endpoint.body {
                Option::Some(b) => Some(b.clone()),
                Option::None => None,
            },
            _ => None,
        };
        RequestPlan { method: endpoint.get_method(), url, headers, params, body }
    }

    /// One-shot terminal step for this client: derive the per-second rates
    /// of its own counters and of every per-URL breakdown entry over the
    /// elapsed measurement window.
    pub fn finalize_rates(&mut self, elapsed_ms: u64)
        requires
            elapsed_ms > 0,
            old(self).wf(),
        ensures
            final(self).wf(),
            final(self).results == old(self).results.with_rates(elapsed_ms),
            final(self).endpoints@.len() == old(self).endpoints@.len(),
            forall|j: int|
                0 <= j < old(self).endpoints@.len() ==> #[trigger] final(self).endpoints@[j] == (
                old(self).endpoints@[j].0,
                old(self).endpoints@[j].1.with_rates(elapsed_ms),
                ),
            final(self).status == old(self).status,
            final(self).id == old(self).id,
            final(self).sleep == old(self).sleep,
            final(self).host == old(self).host,
            final(self).global_headers == old(self).global_headers,
    {
        self.results.finalize_rates(elapsed_ms);
        let n = self.endpoints.len();
        let mut i: usize = 0;
        while i < n
            invariant
                elapsed_ms > 0,
                n == self.endpoints@.len(),
                n == old(self).endpoints@.len(),
                i <= n,
                forall|j: int|
                    0 <= j < i ==> #[trigger] self.endpoints@[j] == (
                    old(self).endpoints@[j].0,
                    old(self).endpoints@[j].1.with_rates(elapsed_ms),
                    ),
                forall|j: int|
                    i <= j < n ==> #[trigger] self.endpoints@[j] == old(self).endpoints@[j],
                self.results == old(self).results.with_rates(elapsed_ms),
                self.status == old(self).status,
                self.id == old(self).id,
                self.sleep == old(self).sleep,
                self.host == old(self).host,
                self.global_headers == old(self).global_headers,
            decreases n - i,
        {
            let entry = &mut self.endpoints[i];
            entry.1.finalize_rates(elapsed_ms);
            i = i + 1;
        }
        proof {
            lemma_sum_of_pointwise(old(self).endpoints@, self.endpoints@, entry_requests());
            lemma_sum_of_pointwise(old(self).endpoints@, self.endpoints@, entry_failed());
            lemma_sum_of_pointwise(
                old(self).endpoints@,
                self.endpoints@,
                entry_connection_errors(),
            );
            lemma_sum_of_pointwise(old(self).endpoints@, self.endpoints@, entry_response_time());
        }
    }

    /// The per-URL breakdown of this client's results.
    pub fn get_endpoints(&self) -> (r: &Vec<(String, Results)>)
        ensures
            r == self.endpoints,
    {
        &self.endpoints
    }

    pub fn get_results(&self) -> (r: &Results)
        ensures
            r == self.results,
    {
        &self.results
    }

    /// The duration, in whole seconds, to sleep before the next request:
    /// drawn uniformly from `[min, max)`; exactly `min` when the range has
    /// collapsed to a single point.
    pub fn select_random_sleep(&self) -> (r: u64)
        requires
            self.sleep.0 <= self.sleep.1,
        ensures
            self.sleep.0 <= r,
            self.sleep.0 == self.sleep.1 ==> r == self.sleep.0,
            self.sleep.0 < self.sleep.1 ==> r < self.sleep.1,
    {
        if self.sleep.0 == self.sleep.1 {
            self.sleep.0
        } else {
            crate::rng::gen_range_u64(self.sleep.0, self.sleep.1)
        }
    }
}

} // verus!
