//! The TCP port probe: a lazy, restartable port sequence (the full range or
//! the common-services list), and a concurrency-bounded probe state machine.
//! The caller attempts the connections; the engine decides which ports to try
//! next and keeps exactly the ports that accepted, in arrival order. A port
//! whose attempt failed — refused, unreachable or timed out — leaves no entry:
//! absence is the one definitive "closed" verdict.

use vstd::prelude::*;
use crate::crawl::dispatch_count;

verus! {

/// The curated common-services port list, probed when a full sweep is not
/// asked for.
pub open spec fn common_ports() -> Seq<u16> {
    seq![
        443u16, 6001, 5601, 9300, 80, 23, 443, 21, 22, 25, 3389, 110, 445, 139, 143, 53, 135,
        3306, 8080, 1723, 111, 995, 993, 5900, 1025, 587, 8888, 199, 1720, 465, 548, 113, 81,
        6001, 10000, 514, 5060, 179, 1026, 2000, 8443, 8000, 32768, 554, 26, 1433, 49152, 2001,
        515, 8008, 49154, 1027, 5666, 646, 5000, 5631, 631, 49153, 8081, 2049, 88, 79, 5800, 106,
        2121, 1110, 49155, 6000, 513, 990, 5357, 427, 49156, 543, 544, 5101, 144, 7, 389, 8009,
        3128, 444, 9999, 5009, 7070, 5190, 3000, 5432, 1900, 3986, 13, 1029, 9, 5051, 6646,
        49157, 1028, 873, 1755, 2717, 4899, 9100, 119, 37, 1000, 3001, 5001, 82, 10010, 1030,
        9090, 2107, 1024, 2103, 6004, 1801, 5050, 19, 8031, 1041, 255, 8291, 54663, 54664, 8012,
        61616, 26379, 3389, 29017, 6001,
    ]
}

/// Every port of the full sweep: 1 through 65535 in order.
pub open spec fn full_range() -> Seq<u16> {
    Seq::new(65535, |i: int| (i + 1) as u16)
}

/// The ports a probe walks, by sweep kind.
pub open spec fn ports_spec(full: bool) -> Seq<u16> {
    if full {
        full_range()
    } else {
        common_ports()
    }
}

/// A lazy, restartable generator over the chosen port set: the full range is
/// never materialized.
pub struct PortSequence {
    /// Whether the full 1..=65535 sweep was chosen.
    pub full: bool,
    /// How many ports were already handed out.
    pub pos: usize,
    /// The curated list, held only for the common sweep.
    pub common: Vec<u16>,
}

impl PortSequence {
    /// The generator walks its chosen port set and never runs past its end.
    pub open spec fn wf(self) -> bool {
        &&& (!self.full ==> self.common@ == common_ports())
        &&& self.pos <= self.list().len()
    }

    /// The whole port set this generator walks.
    pub open spec fn list(self) -> Seq<u16> {
        ports_spec(self.full)
    }

    /// The ports not yet handed out.
    pub open spec fn remaining(self) -> Seq<u16> {
        self.list().skip(self.pos as int)
    }

    /// Hands out the next port, or nothing once the set is exhausted.
    pub fn next(&mut self) -> (r: Option<u16>)
        requires
            old(self).wf(),
        ensures
            final(self).wf(),
            final(self).full == old(self).full,
            old(self).remaining().len() == 0 ==> r is None && *final(self) == *old(self),
            old(self).remaining().len() > 0 ==> r == Some(old(self).remaining()[0])
                && final(self).remaining() == old(self).remaining().skip(1),
    {
        if self.full {
            if self.pos >= 65535 {
                assert(self.remaining().len() == 0);
                None
            } else {
                let p: u16 = (self.pos + 1) as u16;
                assert(p == full_range()[self.pos as int]);
                self.pos = self.pos + 1;
                assert(self.remaining() =~= old(self).remaining().skip(1));
                Some(p)
            }
        } else {
            if self.pos >= self.common.len() {
                assert(self.remaining().len() == 0);
                None
            } else {
                let p = self.common[self.pos];
                self.pos = self.pos + 1;
                assert(self.remaining() =~= old(self).remaining().skip(1));
                Some(p)
            }
        }
    }

    /// Whether every port was handed out.
    pub fn exhausted(&self) -> (r: bool)
        requires
            self.wf(),
        ensures
            r == (self.remaining().len() == 0),
    {
        if self.full {
            self.pos >= 65535
        } else {
            self.pos >= self.common.len()
        }
    }
}

/// The chosen port set as a lazy generator: the full 1..=65535 range, or the
/// curated common-services list.
pub fn get_ports(full: bool) -> (r: PortSequence)
    ensures
        r.wf(),
        r.full == full,
        r.remaining() == ports_spec(full),
{
    let common: Vec<u16> = if full {
        Vec::new()
    } else {
        let v = common_ports_vec();
        v
    };
    let r = PortSequence { full, pos: 0, common };
    assert(r.remaining() =~= r.list());
    r
}

/// The curated list as a vector, exactly [`common_ports`].
fn common_ports_vec() -> (r: Vec<u16>)
    ensures
        r@ == common_ports(),
{
    let r = vec![
        443u16, 6001, 5601, 9300, 80, 23, 443, 21, 22, 25, 3389, 110, 445, 139, 143, 53, 135,
        3306, 8080, 1723, 111, 995, 993, 5900, 1025, 587, 8888, 199, 1720, 465, 548, 113, 81,
        6001, 10000, 514, 5060, 179, 1026, 2000, 8443, 8000, 32768, 554, 26, 1433, 49152, 2001,
        515, 8008, 49154, 1027, 5666, 646, 5000, 5631, 631, 49153, 8081, 2049, 88, 79, 5800, 106,
        2121, 1110, 49155, 6000, 513, 990, 5357, 427, 49156, 543, 544, 5101, 144, 7, 389, 8009,
        3128, 444, 9999, 5009, 7070, 5190, 3000, 5432, 1900, 3986, 13, 1029, 9, 5051, 6646,
        49157, 1028, 873, 1755, 2717, 4899, 9100, 119, 37, 1000, 3001, 5001, 82, 10010, 1030,
        9090, 2107, 1024, 2103, 6004, 1801, 5050, 19, 8031, 1041, 255, 8291, 54663, 54664, 8012,
        61616, 26379, 3389, 29017, 6001,
    ];
    assert(r@ =~= common_ports());
    r
}

/// The ports that accepted, in arrival order: one entry per successful
/// outcome, none for a failed one.
pub open spec fn open_after(s: Seq<(u16, bool)>) -> Seq<u16>
    decreases s.len(),
{
    if s.len() == 0 {
        Seq::empty()
    } else {
        let prev = open_after(s.drop_last());
        if s.last().1 {
            prev.push(s.last().0)
        } else {
            prev
        }
    }
}

/// The concurrency-bounded port probe. The caller connects, with its
/// timeout, to each port the engine hands out and reports the verdict; the
/// engine never holds more than `bound` attempts in flight.
pub struct ProbeEngine {
    /// The ports not yet handed out.
    pub ports: PortSequence,
    /// The width of the fan-out.
    pub bound: usize,
    /// Attempts handed out and not yet reported.
    pub in_flight: usize,
    /// The ports that accepted, in arrival order.
    pub open_ports: Vec<u16>,
    /// Every reported outcome, in arrival order.
    pub outcomes: Ghost<Seq<(u16, bool)>>,
}

impl ProbeEngine {
    /// The probe's invariant: the fan-out respects its bound and the kept
    /// ports are exactly the successful outcomes.
    pub open spec fn wf(self) -> bool {
        &&& 1 <= self.bound
        &&& self.in_flight <= self.bound
        &&& self.ports.wf()
        &&& self.open_ports@ == open_after(self.outcomes@)
    }

    /// Hands out ports to probe while free permits remain.
    fn dispatch(&mut self) -> (batch: Vec<u16>)
        requires
            old(self).wf(),
        ensures
            final(self).wf(),
            final(self).bound == old(self).bound,
            final(self).open_ports == old(self).open_ports,
            final(self).outcomes == old(self).outcomes,
            ({
                let k = dispatch_count(
                    old(self).ports.remaining().len() as int,
                    old(self).bound as int,
                    old(self).in_flight as int,
                );
                &&& batch@.len() == k
                &&& batch@ == old(self).ports.remaining().take(k)
                &&& final(self).ports.remaining() == old(self).ports.remaining().skip(k)
                &&& final(self).in_flight == old(self).in_flight + k
            }),
    {
        let ghost r0 = self.ports.remaining();
        let mut batch: Vec<u16> = Vec::new();
        while self.in_flight < self.bound && !self.ports.exhausted()
            invariant
                self.wf(),
                self.bound == old(self).bound,
                self.open_ports == old(self).open_ports,
                self.outcomes == old(self).outcomes,
                batch@.len() == self.in_flight - old(self).in_flight,
                batch@.len() <= dispatch_count(
                    r0.len() as int,
                    self.bound as int,
                    old(self).in_flight as int,
                ),
                self.ports.remaining() == r0.skip(batch@.len() as int),
                batch@ == r0.take(batch@.len() as int),
            decreases self.ports.remaining().len(),
        {
            let ghost i = batch@.len() as int;
            let p = match self.ports.next() {
                Some(p) => p,
                None => {
                    proof {
                        assert(false);
                    }
                    0
                },
            };
            assert(p == r0[i]);
            batch.push(p);
            self.in_flight = self.in_flight + 1;
            proof {
                assert(self.ports.remaining() =~= r0.skip(i + 1));
                assert(batch@ =~= r0.take(i + 1));
            }
        }
        proof {
            let k = dispatch_count(
                r0.len() as int,
                self.bound as int,
                old(self).in_flight as int,
            );
            assert(batch@.len() == k);
        }
        batch
    }

    /// Begins a probe over the chosen port set under the given fan-out
    /// bound; the returned batch is the first set of ports to try.
    pub fn start(full: bool, bound: usize) -> (r: (ProbeEngine, Vec<u16>))
        requires
            bound >= 1,
        ensures
            r.0.wf(),
            r.0.bound == bound,
            r.0.outcomes@.len() == 0,
            r.0.open_ports@.len() == 0,
            ({
                let k = dispatch_count(ports_spec(full).len() as int, bound as int, 0);
                &&& r.1@ == ports_spec(full).take(k)
                &&& r.0.ports.remaining() == ports_spec(full).skip(k)
                &&& r.0.in_flight == k
            }),
    {
        let ports = get_ports(full);
        let mut eng = ProbeEngine {
            ports,
            bound,
            in_flight: 0,
            open_ports: Vec::new(),
            outcomes: Ghost(Seq::empty()),
        };
        let batch = eng.dispatch();
        (eng, batch)
    }

    /// Reports one finished attempt: a port that accepted within the
    /// caller's timeout joins the result, any failure leaves no trace beyond
    /// its recorded outcome; freed permits immediately hand out more ports.
    pub fn on_result(&mut self, port: u16, open: bool) -> (batch: Vec<u16>)
        requires
            old(self).wf(),
            old(self).in_flight >= 1,
        ensures
            final(self).wf(),
            final(self).bound == old(self).bound,
            final(self).outcomes@ == old(self).outcomes@.push((port, open)),
            open ==> final(self).open_ports@ == old(self).open_ports@.push(port),
            !open ==> final(self).open_ports@ == old(self).open_ports@,
            ({
                let k = dispatch_count(
                    old(self).ports.remaining().len() as int,
                    old(self).bound as int,
                    old(self).in_flight - 1,
                );
                &&& batch@.len() == k
                &&& batch@ == old(self).ports.remaining().take(k)
                &&& final(self).ports.remaining() == old(self).ports.remaining().skip(k)
                &&& final(self).in_flight == old(self).in_flight - 1 + k
            }),
    {
        self.in_flight = self.in_flight - 1;
        if open {
            self.open_ports.push(port);
        }
        proof {
            self.outcomes@ = self.outcomes@.push((port, open));
            assert(self.outcomes@.drop_last() =~= old(self).outcomes@);
            assert(self.outcomes@.last() == (port, open));
        }
        self.dispatch()
    }

    /// Whether every port was tried and every attempt reported.
    pub fn is_done(&self) -> (r: bool)
        requires
            self.wf(),
        ensures
            r == (self.in_flight == 0 && self.ports.remaining().len() == 0),
    {
        self.in_flight == 0 && self.ports.exhausted()
    }

    /// The ports that accepted, in arrival order.
    pub fn into_result(self) -> (r: Vec<u16>)
        requires
            self.wf(),
        ensures
            r@ == open_after(self.outcomes@),
    {
        self.open_ports
    }
}

/// A port whose every attempt failed — it never accepted within the timeout —
/// is absent from the result, however often it was tried.
pub proof fn lemma_closed_port_absent(s: Seq<(u16, bool)>, p: u16)
    requires
        forall|i: int| 0 <= i < s.len() && (#[trigger] s[i]).0 == p ==> !s[i].1,
    ensures
        !open_after(s).contains(p),
    decreases s.len(),
{
    if s.len() > 0 {
        lemma_closed_port_absent(s.drop_last(), p);
        if s.last().1 {
            assert(s[s.len() - 1].0 != p);
            assert forall|j: int| 0 <= j < open_after(s).len() implies open_after(s)[j]
                != p by {
                if j < open_after(s.drop_last()).len() {
                    assert(!open_after(s.drop_last()).contains(p));
                    assert(open_after(s.drop_last())[j] != p);
                }
            }
        } else {
            assert(open_after(s) == open_after(s.drop_last()));
        }
    }
}

/// A port that accepted at least once is present in the result.
pub proof fn lemma_open_port_present(s: Seq<(u16, bool)>, i: int)
    requires
        0 <= i < s.len(),
        s[i].1,
    ensures
        open_after(s).contains(s[i].0),
    decreases s.len(),
{
    if i == s.len() - 1 {
        assert(open_after(s).last() == s[i].0);
    } else {
        lemma_open_port_present(s.drop_last(), i);
        let prev = open_after(s.drop_last());
        let j = choose|j: int| 0 <= j < prev.len() && prev[j] == s[i].0;
        if s.last().1 {
            assert(open_after(s)[j] == s[i].0);
        }
    }
}

} // verus!
