//! The two-level, concurrency-bounded crawl as a state machine. The engine
//! never touches the network: the caller fetches the URLs the engine hands
//! out and reports each completion, success or failure alike; the engine
//! seeds from robots.txt, classifies every parsed body, bounds how many
//! fetches may be in flight, and accumulates the discovered endpoints.

use vstd::prelude::*;
use vstd::string::StringExecFns;
use crate::links::{CrawlLink, parse, parsed_inner, parsed_outer, robots_paths,
    extract_robots_paths};
use crate::rawreq::FetchOutcome;

verus! {

/// Where the crawl stands: awaiting the robots.txt body, fanning out over
/// the seed endpoints, fanning out over the endpoints the first level found,
/// or finished.
#[derive(Debug, Clone, Copy, PartialEq, Eq, Structural)]
pub enum CrawlPhase {
    Robots,
    Level1,
    Level2,
    Done,
}

/// How many fetches may start when `q` endpoints wait, `bound` permits exist
/// and `in_flight` are taken: the queue drains up to the free permits.
pub open spec fn dispatch_count(q: int, bound: int, in_flight: int) -> int {
    if q <= bound - in_flight {
        q
    } else {
        bound - in_flight
    }
}

/// Every endpoint joined onto the base URL.
pub open spec fn join_all(base: Seq<char>, eps: Seq<Seq<char>>) -> Seq<Seq<char>> {
    eps.map_values(|e: Seq<char>| base + e)
}

/// The crawl engine. One engine owns one crawl: its accumulators are read
/// only through [`CrawlEngine::into_result`] once the crawl is done.
pub struct CrawlEngine {
    /// The seed URL every endpoint is joined onto.
    pub base: String,
    /// The width of the fetch fan-out: never more than this many fetches in
    /// flight.
    pub bound: usize,
    /// Where the crawl stands.
    pub phase: CrawlPhase,
    /// Fetches handed out and not yet reported back.
    pub in_flight: usize,
    /// Endpoints of the current phase not yet handed out.
    pub queue: Vec<String>,
    /// Inner endpoints the first-level parses found, fetched by the second
    /// level.
    pub level1_found: Vec<String>,
    /// All inner endpoints discovered so far, in discovery order.
    pub acc_inner: Vec<String>,
    /// All outer endpoints discovered so far, in discovery order.
    pub acc_outer: Vec<String>,
    /// Permits ever acquired.
    pub dispatched: Ghost<nat>,
    /// Permits released: one per completion, success or failure.
    pub completed: Ghost<nat>,
}

impl CrawlEngine {
    /// The engine's invariant: the fan-out never exceeds its bound, and every
    /// permit acquired is either still held by an in-flight fetch or was
    /// released by exactly one completion.
    pub open spec fn wf(self) -> bool {
        &&& 1 <= self.bound
        &&& self.in_flight <= self.bound
        &&& self.dispatched@ == self.completed@ + self.in_flight
        &&& (self.phase is Robots ==> self.in_flight == 0 && self.queue@.len() == 0
            && self.acc_inner@.len() == 0 && self.acc_outer@.len() == 0
            && self.level1_found@.len() == 0)
        &&& (self.phase is Done ==> self.in_flight == 0 && self.queue@.len() == 0)
    }

    /// Begins a crawl of `base` under the given fan-out bound; the returned
    /// URL is the robots.txt of the seed, to be fetched first.
    pub fn start(base: String, bound: usize) -> (r: (CrawlEngine, String))
        requires
            bound >= 1,
        ensures
            r.0.wf(),
            r.0.phase is Robots,
            r.0.base@ == base@,
            r.0.bound == bound,
            r.0.dispatched@ == 0,
            r.0.completed@ == 0,
            r.1@ == base@ + "/robots.txt"@,
    {
        let mut robots_url = base.clone();
        robots_url.append("/robots.txt");
        let eng = CrawlEngine {
            base,
            bound,
            phase: CrawlPhase::Robots,
            in_flight: 0,
            queue: Vec::new(),
            level1_found: Vec::new(),
            acc_inner: Vec::new(),
            acc_outer: Vec::new(),
            dispatched: Ghost(0),
            completed: Ghost(0),
        };
        (eng, robots_url)
    }

    /// Hands out fetches for the queued endpoints while free permits remain:
    /// each started fetch takes one permit.
    fn dispatch(&mut self) -> (urls: Vec<String>)
        requires
            old(self).wf(),
        ensures
            final(self).wf(),
            final(self).base == old(self).base,
            final(self).bound == old(self).bound,
            final(self).phase == old(self).phase,
            final(self).acc_inner == old(self).acc_inner,
            final(self).acc_outer == old(self).acc_outer,
            final(self).level1_found == old(self).level1_found,
            final(self).completed@ == old(self).completed@,
            ({
                let k = dispatch_count(
                    old(self).queue@.len() as int,
                    old(self).bound as int,
                    old(self).in_flight as int,
                );
                &&& urls@.len() == k
                &&& urls.deep_view() == join_all(
                    old(self).base@,
                    old(self).queue.deep_view().take(k),
                )
                &&& final(self).queue.deep_view() == old(self).queue.deep_view().skip(k)
                &&& final(self).in_flight == old(self).in_flight + k
                &&& final(self).dispatched@ == old(self).dispatched@ + k
            }),
    {
        let ghost q0 = self.queue.deep_view();
        let ghost k = dispatch_count(
            self.queue@.len() as int,
            self.bound as int,
            self.in_flight as int,
        );
        let mut urls: Vec<String> = Vec::new();
        while self.queue.len() > 0 && self.in_flight < self.bound
            invariant
                self.wf(),
                self.base == old(self).base,
                self.bound == old(self).bound,
                self.phase == old(self).phase,
                self.acc_inner == old(self).acc_inner,
                self.acc_outer == old(self).acc_outer,
                self.level1_found == old(self).level1_found,
                self.completed@ == old(self).completed@,
                urls@.len() == self.in_flight - old(self).in_flight,
                urls@.len() <= k,
                k == dispatch_count(
                    q0.len() as int,
                    self.bound as int,
                    old(self).in_flight as int,
                ),
                self.queue.deep_view() == q0.skip(urls@.len() as int),
                urls.deep_view() == join_all(self.base@, q0.take(urls@.len() as int)),
                self.dispatched@ == old(self).dispatched@ + urls@.len(),
            decreases self.queue.len(),
        {
            let ghost i = urls@.len() as int;
            let ghost pre_qv = self.queue@;
            proof {
                assert(self.queue.deep_view() == q0.skip(i));
                assert(self.queue.deep_view().len() == pre_qv.len());
                assert(i < q0.len());
                assert(self.queue.deep_view()[0] == pre_qv[0]@);
                assert(q0.skip(i)[0] == q0[i]);
            }
            let ep = self.queue.remove(0);
            assert(ep@ == q0[i]);
            let mut u = self.base.clone();
            u.append(ep.as_str());
            assert(u@ == self.base@ + q0[i]);
            urls.push(u);
            self.in_flight = self.in_flight + 1;
            proof {
                self.dispatched@ = self.dispatched@ + 1;
                assert(self.queue@ =~= pre_qv.skip(1));
                assert(self.queue.deep_view() =~= q0.skip(i + 1)) by {
                    assert forall|j: int| 0 <= j < self.queue@.len() implies self.queue.deep_view()[j]
                        == q0.skip(i + 1)[j] by {
                        assert(self.queue.deep_view()[j] == self.queue@[j]@);
                        assert(self.queue@[j] == pre_qv[j + 1]);
                        assert(pre_qv[j + 1]@ == q0.skip(i)[j + 1]);
                        assert(q0.skip(i)[j + 1] == q0[i + 1 + j]);
                    }
                }
                assert(urls.deep_view() =~= join_all(self.base@, q0.take(i)).push(
                    self.base@ + q0[i],
                ));
                assert(q0.take(i + 1) =~= q0.take(i).push(q0[i]));
                assert(join_all(self.base@, q0.take(i + 1)) =~= join_all(
                    self.base@,
                    q0.take(i),
                ).push(self.base@ + q0[i]));
            }
        }
        proof {
            assert(urls@.len() == k);
        }
        urls
    }

    /// Feeds the robots.txt body in — or its absence, which is non-fatal and
    /// seeds nothing. The path-like tokens of the body seed the inner
    /// accumulator and the first-level queue, and the first fetches start.
    pub fn on_robots(&mut self, body: Option<String>) -> (urls: Vec<String>)
        requires
            old(self).wf(),
            old(self).phase is Robots,
        ensures
            final(self).wf(),
            final(self).base == old(self).base,
            final(self).bound == old(self).bound,
            final(self).phase is Level1,
            final(self).acc_outer@.len() == 0,
            final(self).level1_found@.len() == 0,
            final(self).completed@ == old(self).completed@,
            ({
                let seeds = match body {
                    Some(b) => robots_paths(b@),
                    None => robots_paths(Seq::<char>::empty()),
                };
                let k = dispatch_count(seeds.len() as int, old(self).bound as int, 0);
                &&& final(self).acc_inner.deep_view() == seeds
                &&& urls@.len() == k
                &&& urls.deep_view() == join_all(old(self).base@, seeds.take(k))
                &&& final(self).queue.deep_view() == seeds.skip(k)
                &&& final(self).in_flight == k
                &&& final(self).dispatched@ == old(self).dispatched@ + k
            }),
    {
        let seeds = match body {
            Some(b) => extract_robots_paths(b.as_str()),
            None => {
                proof {
                    reveal_strlit("");
                }
                let r = extract_robots_paths("");
                assert(""@ =~= Seq::<char>::empty());
                r
            },
        };
        let mut for_acc = Vec::new();
        extend_clone(&mut for_acc, &seeds);
        assert(for_acc.deep_view() =~= seeds.deep_view());
        self.acc_inner = for_acc;
        self.queue = seeds;
        self.phase = CrawlPhase::Level1;
        self.dispatch()
    }

    /// Reports one finished fetch, successful or not. The permit is released
    /// either way; a body's links are classified and accumulated, and on the
    /// first level also remembered as the second level's endpoints; freed
    /// permits immediately start further queued fetches.
    pub fn on_page(&mut self, outcome: Option<FetchOutcome>) -> (urls: Vec<String>)
        requires
            old(self).wf(),
            old(self).phase is Level1 || old(self).phase is Level2,
            old(self).in_flight >= 1,
        ensures
            final(self).wf(),
            final(self).base == old(self).base,
            final(self).bound == old(self).bound,
            final(self).phase == old(self).phase,
            final(self).completed@ == old(self).completed@ + 1,
            outcome matches Some(o) ==> {
                &&& final(self).acc_inner.deep_view() == old(self).acc_inner.deep_view()
                    + parsed_inner(o.body@)
                &&& final(self).acc_outer.deep_view() == old(self).acc_outer.deep_view()
                    + parsed_outer(o.body@)
                &&& (old(self).phase is Level1
                    ==> final(self).level1_found.deep_view()
                    == old(self).level1_found.deep_view() + parsed_inner(o.body@))
                &&& (old(self).phase is Level2
                    ==> final(self).level1_found == old(self).level1_found)
            },
            outcome is None ==> final(self).acc_inner == old(self).acc_inner
                && final(self).acc_outer == old(self).acc_outer
                && final(self).level1_found == old(self).level1_found,
            ({
                let k = dispatch_count(
                    old(self).queue@.len() as int,
                    old(self).bound as int,
                    old(self).in_flight - 1,
                );
                &&& urls@.len() == k
                &&& urls.deep_view() == join_all(
                    old(self).base@,
                    old(self).queue.deep_view().take(k),
                )
                &&& final(self).queue.deep_view() == old(self).queue.deep_view().skip(k)
                &&& final(self).in_flight == old(self).in_flight - 1 + k
                &&& final(self).dispatched@ == old(self).dispatched@ + k
            }),
    {
        self.in_flight = self.in_flight - 1;
        proof {
            self.completed@ = self.completed@ + 1;
        }
        match outcome {
            Some(o) => {
                let mut parsed = parse(&o.body);
                if matches!(self.phase, CrawlPhase::Level1) {
                    extend_clone(&mut self.level1_found, &parsed.inner);
                }
                let ghost pre_in = self.acc_inner.deep_view();
                let ghost pre_out = self.acc_outer.deep_view();
                self.acc_inner.append(&mut parsed.inner);
                self.acc_outer.append(&mut parsed.outer);
                assert(self.acc_inner.deep_view() =~= pre_in + parsed_inner(o.body@));
                assert(self.acc_outer.deep_view() =~= pre_out + parsed_outer(o.body@));
            },
            None => {},
        }
        self.dispatch()
    }

    /// Moves an idle engine to its next phase: from the first level to the
    /// second — whose endpoints are exactly the inner endpoints the first
    /// level found, fetched in that order — and from the second to done.
    pub fn next_phase(&mut self) -> (urls: Vec<String>)
        requires
            old(self).wf(),
            old(self).phase is Level1 || old(self).phase is Level2,
            old(self).in_flight == 0,
            old(self).queue@.len() == 0,
        ensures
            final(self).wf(),
            final(self).base == old(self).base,
            final(self).bound == old(self).bound,
            final(self).acc_inner == old(self).acc_inner,
            final(self).acc_outer == old(self).acc_outer,
            final(self).completed@ == old(self).completed@,
            old(self).phase is Level2 ==> final(self).phase is Done && urls@.len() == 0
                && final(self).dispatched@ == old(self).dispatched@,
            old(self).phase is Level1 ==> {
                let eps = old(self).level1_found.deep_view();
                let k = dispatch_count(eps.len() as int, old(self).bound as int, 0);
                &&& final(self).phase is Level2
                &&& final(self).level1_found@.len() == 0
                &&& urls@.len() == k
                &&& urls.deep_view() == join_all(old(self).base@, eps.take(k))
                &&& final(self).queue.deep_view() == eps.skip(k)
                &&& final(self).in_flight == k
                &&& final(self).dispatched@ == old(self).dispatched@ + k
            },
    {
        if matches!(self.phase, CrawlPhase::Level1) {
            let mut eps = Vec::new();
            core::mem::swap(&mut eps, &mut self.level1_found);
            self.queue = eps;
            self.phase = CrawlPhase::Level2;
            self.dispatch()
        } else {
            self.phase = CrawlPhase::Done;
            Vec::new()
        }
    }

    /// Whether the crawl has finished.
    pub fn is_done(&self) -> (r: bool)
        ensures
            r == (self.phase is Done),
    {
        matches!(self.phase, CrawlPhase::Done)
    }

    /// The full accumulated result of a finished crawl.
    pub fn into_result(self) -> (r: CrawlLink)
        requires
            self.phase is Done,
        ensures
            r.inner_view() == self.acc_inner.deep_view(),
            r.outer_view() == self.acc_outer.deep_view(),
    {
        CrawlLink { inner: self.acc_inner, outer: self.acc_outer }
    }
}

/// Appends a copy of every entry of `src` to `dst`.
fn extend_clone(dst: &mut Vec<String>, src: &Vec<String>)
    ensures
        final(dst).deep_view() == old(dst).deep_view() + src.deep_view(),
{
    let n = src.len();
    let mut i: usize = 0;
    while i < n
        invariant
            i <= n,
            n == src@.len(),
            dst.deep_view() == old(dst).deep_view() + src.deep_view().take(i as int),
        decreases n - i,
    {
        let ghost pre = dst.deep_view();
        dst.push(src[i].clone());
        proof {
            assert(dst.deep_view() =~= pre.push(src.deep_view()[i as int]));
            assert(src.deep_view().take(i + 1) =~= src.deep_view().take(i as int).push(
                src.deep_view()[i as int],
            ));
            assert(old(dst).deep_view() + src.deep_view().take(i + 1) =~= (old(dst).deep_view()
                + src.deep_view().take(i as int)).push(src.deep_view()[i as int]));
        }
        i += 1;
    }
    assert(src.deep_view().take(n as int) =~= src.deep_view());
}

/// Permit discipline: in a well-formed engine the fetches in flight never
/// exceed the configured bound, and the permits ever acquired are exactly the
/// released completions plus the fetches still in flight — no permit leaks,
/// whatever mix of successes and failures was reported.
pub proof fn lemma_permit_discipline(e: CrawlEngine)
    requires
        e.wf(),
    ensures
        e.in_flight <= e.bound,
        e.dispatched@ == e.completed@ + e.in_flight,
{
}

} // verus!
