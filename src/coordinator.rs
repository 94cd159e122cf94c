//! The crawl coordinator: admits discovered links, counts the fetches in
//! flight, and decides when the crawl has completed or must abort.
//!
//! The coordinator makes every decision; the caller performs the fetches it
//! asks for and hands each outcome back, in any order, exactly once.
use vstd::prelude::*;
use crate::history::{admit_all, CrawlHistory, HistoryView};
use crate::link::{host_str_of, Link};
use crate::page::{link_texts, FetchError};

verus! {

/// Where a crawl stands.
#[derive(PartialEq, Eq, Structural, Clone, Copy, Debug)]
pub enum Phase {
    /// Results are still awaited.
    Running,
    /// Every dispatched fetch has reported and none failed.
    Completed,
    /// A fetch failed; results still arriving are discarded.
    Aborted,
}

/// The outcome of one fetch: the absolute links found on the page, or the
/// failure.
#[derive(Clone, Debug)]
pub enum WorkResult {
    Links(Vec<Link>),
    Failed(FetchError),
}

/// What the caller does after a result has been consumed.
#[derive(Clone, Debug)]
pub enum Step {
    /// Start a fetch for each of these links (perhaps none) without waiting
    /// for it, then hand over the next result.
    Dispatch(Vec<Link>),
    /// The crawl is over; the number of distinct URLs visited.
    Completed(usize),
    /// The crawl is over because of this failure; the number of distinct URLs
    /// scheduled up to then.
    Aborted(FetchError, usize),
}

/// The mathematical state of a coordinator.
pub struct CoordinatorView {
    pub phase: Phase,
    /// Fetches dispatched whose results have not been consumed.
    pub in_flight: nat,
    /// Results consumed.
    pub consumed: nat,
    /// Every URL dispatched for fetching, in order of dispatch.
    pub dispatched: Seq<Seq<char>>,
    pub registry: HistoryView,
}

impl CoordinatorView {
    pub open spec fn wf(&self) -> bool {
        &&& self.registry.wf()
        &&& self.dispatched == self.registry.admitted
        &&& self.dispatched.len() > 0
        &&& host_str_of(self.dispatched[0]) == self.registry.host
        &&& self.in_flight + self.consumed == self.dispatched.len()
        &&& self.phase == Phase::Running ==> self.in_flight > 0
        &&& self.phase == Phase::Completed ==> self.in_flight == 0
    }
}

/// The crawl coordinator.
pub struct Coordinator {
    history: CrawlHistory,
    in_flight: usize,
    phase: Phase,
    dispatched: Ghost<Seq<Seq<char>>>,
    consumed: Ghost<nat>,
}

impl View for Coordinator {
    type V = CoordinatorView;

    closed spec fn view(&self) -> CoordinatorView {
        CoordinatorView {
            phase: self.phase,
            in_flight: self.in_flight as nat,
            consumed: self.consumed@,
            dispatched: self.dispatched@,
            registry: self.history@,
        }
    }
}

impl Coordinator {
    pub open spec fn wf(&self) -> bool {
        self@.wf()
    }

    /// A crawl confined to the host of `seed`, with `seed` admitted and
    /// counted as the one fetch in flight: the caller dispatches it.
    pub fn new(seed: &Link) -> (r: Coordinator)
        ensures
            r.wf(),
            r@.phase == Phase::Running,
            r@.in_flight == 1,
            r@.consumed == 0,
            r@.dispatched == seq![seed@],
            r@.registry.host == host_str_of(seed@),
    {
        let history = CrawlHistory::with_start(seed);
        let ghost first = seq![seed@];
        Coordinator {
            history,
            in_flight: 1,
            phase: Phase::Running,
            dispatched: Ghost(first),
            consumed: Ghost(0nat),
        }
    }

    /// Consumes the result of one dispatched fetch. A failure aborts the
    /// crawl. Otherwise each link of the crawl's host not yet scheduled is
    /// admitted and handed back for dispatch, and the crawl completes when no
    /// fetch remains in flight.
    pub fn on_result(&mut self, result: WorkResult) -> (step: Step)
        requires
            old(self).wf(),
            old(self)@.phase == Phase::Running,
        ensures
            final(self).wf(),
            final(self)@.consumed == old(self)@.consumed + 1,
            final(self)@.registry.host == old(self)@.registry.host,
            final(self)@.in_flight + old(self)@.dispatched.len() == old(self)@.in_flight - 1
                + final(self)@.dispatched.len(),
            match result {
                WorkResult::Failed(e) => {
                    &&& step == Step::Aborted(e, old(self)@.dispatched.len() as usize)
                    &&& final(self)@.phase == Phase::Aborted
                    &&& final(self)@.dispatched == old(self)@.dispatched
                },
                WorkResult::Links(links) => {
                    &&& final(self)@.dispatched == admit_all(
                        old(self)@.dispatched,
                        old(self)@.registry.host,
                        link_texts(links@),
                    )
                    &&& match step {
                        Step::Dispatch(v) => {
                            &&& final(self)@.dispatched == old(self)@.dispatched + link_texts(v@)
                            &&& final(self)@.phase == Phase::Running
                        },
                        Step::Completed(n) => {
                            &&& final(self)@.dispatched == old(self)@.dispatched
                            &&& final(self)@.phase == Phase::Completed
                            &&& final(self)@.in_flight == 0
                            &&& n == final(self)@.dispatched.len()
                            &&& n == final(self)@.registry.admitted.len()
                            &&& n == final(self)@.dispatched.to_set().len()
                        },
                        Step::Aborted(..) => false,
                    }
                },
            },
    {
        self.in_flight = self.in_flight - 1;
        self.consumed = Ghost(self.consumed@ + 1);
        match result {
            WorkResult::Failed(e) => {
                self.phase = Phase::Aborted;
                let n = self.history.len();
                Step::Aborted(e, n)
            },
            WorkResult::Links(links) => {
                let ghost start = self.history@.admitted;
                let ghost host = self.history@.host;
                let mut out: Vec<Link> = Vec::new();
                let mut i: usize = 0;
                assert(link_texts(links@).take(0) =~= Seq::<Seq<char>>::empty());
                assert(start + link_texts(out@) =~= start);
                while i < links.len()
                    invariant
                        i <= links@.len(),
                        old(self).wf(),
                        start == old(self)@.dispatched,
                        host == old(self)@.registry.host,
                        self.history.wf(),
                        self.history@.host == host,
                        self.history@.admitted == admit_all(start, host, link_texts(links@).take(i as int)),
                        self.history@.admitted == start + link_texts(out@),
                        self.dispatched@ == self.history@.admitted,
                        self.consumed@ == old(self)@.consumed + 1,
                        self.in_flight + self.consumed@ == self.dispatched@.len(),
                        self.phase == Phase::Running,
                    decreases links@.len() - i,
                {
                    let ghost prefix = link_texts(links@).take(i as int);
                    assert(link_texts(links@).take(i + 1).drop_last() =~= prefix);
                    let url = &links[i];
                    if self.history.to_be_visited(url) {
                        // The registry's length bounds the count, so it cannot overflow.
                        let admitted_count = self.history.len();
                        assert(self.in_flight < admitted_count);
                        self.in_flight = self.in_flight + 1;
                        self.dispatched = Ghost(self.history@.admitted);
                        out.push(url.duplicate());
                        assert(self.history@.admitted =~= start + link_texts(out@));
                    }
                    i = i + 1;
                }
                assert(link_texts(links@).take(links@.len() as int) =~= link_texts(links@));
                if self.in_flight == 0 {
                    self.phase = Phase::Completed;
                    assert(link_texts(out@).len() == 0);
                    assert(start + link_texts(out@) =~= start);
                    let n = self.history.len();
                    proof {
                        self.dispatched@.unique_seq_to_set();
                    }
                    Step::Completed(n)
                } else {
                    Step::Dispatch(out)
                }
            },
        }
    }

    /// Where the crawl stands.
    pub fn phase(&self) -> (r: Phase)
        ensures
            r == self@.phase,
    {
        self.phase
    }

    /// The number of fetches dispatched whose results have not been consumed.
    pub fn in_flight(&self) -> (r: usize)
        ensures
            r == self@.in_flight,
    {
        self.in_flight
    }

    /// The number of distinct URLs scheduled so far.
    pub fn visited(&self) -> (r: usize)
        requires
            self.wf(),
        ensures
            r == self@.dispatched.len(),
            r == self@.registry.admitted.len(),
    {
        self.history.len()
    }

    /// The visited registry of this crawl.
    pub fn registry(&self) -> (r: &CrawlHistory)
        ensures
            r@ == self@.registry,
            self.wf() ==> r.wf(),
    {
        &self.history
    }
}

/// Scope: every URL a crawl admits has the host string of its seed, the
/// first URL dispatched.
pub proof fn lemma_admits_only_seed_host(c: Coordinator)
    requires
        c.wf(),
    ensures
        forall|i: int|
            0 <= i < c@.registry.admitted.len() ==> host_str_of(#[trigger] c@.registry.admitted[i])
                == host_str_of(c@.dispatched[0]),
{
}

/// At most once: no URL is dispatched for fetching twice.
pub proof fn lemma_dispatch_at_most_once(c: Coordinator)
    requires
        c.wf(),
    ensures
        c@.dispatched.no_duplicates(),
{
}

/// Completion accounting: a completed crawl has no fetch in flight, has
/// consumed one result per dispatch, and its registry holds as many URLs as
/// distinct URLs were dispatched.
pub proof fn lemma_completion_accounting(c: Coordinator)
    requires
        c.wf(),
        c@.phase == Phase::Completed,
    ensures
        c@.in_flight == 0,
        c@.consumed == c@.dispatched.len(),
        c@.registry.admitted.len() == c@.dispatched.len(),
        c@.registry.admitted.len() == c@.dispatched.to_set().len(),
{
    c@.dispatched.unique_seq_to_set();
}

} // verus!
