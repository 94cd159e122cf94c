//! The visited registry: which URLs of the crawl's host have been scheduled.
use vstd::prelude::*;
use crate::link::{host_str_of, opt_text, Link};

verus! {

/// The mathematical state of a registry: the admitted URLs in order of
/// admission, and the host of the start URL, which confines the crawl.
pub struct HistoryView {
    pub admitted: Seq<Seq<char>>,
    pub host: Option<Seq<char>>,
}

impl HistoryView {
    /// Each URL is admitted once, and every admitted URL has the start URL's host.
    pub open spec fn wf(&self) -> bool {
        &&& self.admitted.no_duplicates()
        &&& forall|i: int| 0 <= i < self.admitted.len() ==> host_str_of(#[trigger] self.admitted[i]) == self.host
    }
}

/// Whether `url` lies in the scope of a crawl whose start URL has host `host`:
/// it has a host, and that host is the same string.
pub open spec fn in_scope(host: Option<Seq<char>>, url: Seq<char>) -> bool {
    host_str_of(url) is Some && host_str_of(url) == host
}

/// The admissions that offering `urls` in order to a registry holding
/// `admitted` makes: each URL in scope that is not yet held is appended.
pub open spec fn admit_all(admitted: Seq<Seq<char>>, host: Option<Seq<char>>, urls: Seq<Seq<char>>) -> Seq<Seq<char>>
    decreases urls.len(),
{
    if urls.len() == 0 {
        admitted
    } else {
        let prev = admit_all(admitted, host, urls.drop_last());
        let u = urls.last();
        if in_scope(host, u) && !prev.contains(u) {
            prev.push(u)
        } else {
            prev
        }
    }
}

/// The views of a sequence of strings.
pub open spec fn texts(v: Seq<String>) -> Seq<Seq<char>> {
    v.map_values(|s: String| s@)
}

/// A registry of the URLs already scheduled, confined to one host.
///
/// The URLs are kept in a vector without duplicates: vstd specifies its hash
/// sets only for key types with a key model, which `String` does not have.
#[derive(Debug)]
pub struct CrawlHistory {
    url_visited: Vec<String>,
    host: Option<String>,
}

impl View for CrawlHistory {
    type V = HistoryView;

    closed spec fn view(&self) -> HistoryView {
        HistoryView { admitted: texts(self.url_visited@), host: opt_text(self.host) }
    }
}

impl CrawlHistory {
    pub open spec fn wf(&self) -> bool {
        self@.wf()
    }

    /// An empty registry for the host of `start_url`.
    pub fn new(start_url: &Link) -> (r: CrawlHistory)
        ensures
            r.wf(),
            r@.admitted == Seq::<Seq<char>>::empty(),
            r@.host == host_str_of(start_url@),
    {
        let r = CrawlHistory { url_visited: Vec::new(), host: start_url.host() };
        assert(r@.admitted =~= Seq::<Seq<char>>::empty());
        r
    }

    /// A registry for the host of `start_url` that holds `start_url` alone,
    /// whether or not it has a host.
    pub fn with_start(start_url: &Link) -> (r: CrawlHistory)
        ensures
            r.wf(),
            r@.admitted == seq![start_url@],
            r@.host == host_str_of(start_url@),
    {
        let mut r = CrawlHistory::new(start_url);
        r.url_visited.push(start_url.as_str().to_owned());
        assert(r@.admitted =~= seq![start_url@]);
        r
    }

    /// Whether `url` was already admitted.
    fn contains(&self, url: &String) -> (r: bool)
        ensures
            r == self@.admitted.contains(url@),
    {
        let mut i: usize = 0;
        while i < self.url_visited.len()
            invariant
                i <= self.url_visited@.len(),
                forall|j: int| 0 <= j < i ==> texts(self.url_visited@)[j] != url@,
            decreases self.url_visited@.len() - i,
        {
            if self.url_visited[i] == *url {
                assert(texts(self.url_visited@)[i as int] == url@);
                return true;
            }
            i = i + 1;
        }
        false
    }

    /// Whether `host` is the registry's host.
    fn same_host(&self, host: &Option<String>) -> (r: bool)
        ensures
            r == (opt_text(*host) is Some && opt_text(*host) == self@.host),
    {
        match (&self.host, host) {
            (Some(mine), Some(theirs)) => *mine == *theirs,
            _ => false,
        }
    }

    /// Admits `url` when its host is the registry's host and it was not
    /// admitted before; says whether it did. Checking and recording are one step.
    pub fn to_be_visited(&mut self, url: &Link) -> (r: bool)
        requires
            old(self).wf(),
        ensures
            final(self).wf(),
            r == (in_scope(old(self)@.host, url@) && !old(self)@.admitted.contains(url@)),
            final(self)@.host == old(self)@.host,
            final(self)@.admitted == if r {
                old(self)@.admitted.push(url@)
            } else {
                old(self)@.admitted
            },
    {
        let host = url.host();
        let url = url.as_str().to_owned();
        if self.same_host(&host) && !self.contains(&url) {
            self.url_visited.push(url);
            assert(self@.admitted =~= old(self)@.admitted.push(url@));
            true
        } else {
            false
        }
    }

    /// The number of admitted URLs.
    pub fn len(&self) -> (r: usize)
        ensures
            r == self@.admitted.len(),
    {
        self.url_visited.len()
    }
}

/// A registry that counts its start URL as visited from the outset.
#[derive(Debug)]
pub struct CheckerLogic {
    history: CrawlHistory,
}

impl View for CheckerLogic {
    type V = HistoryView;

    closed spec fn view(&self) -> HistoryView {
        self.history@
    }
}

impl CheckerLogic {
    pub open spec fn wf(&self) -> bool {
        self@.wf()
    }

    /// A registry for the host of `start_url` that holds `start_url` alone.
    pub fn new(start_url: &Link) -> (r: CheckerLogic)
        ensures
            r.wf(),
            r@.admitted == seq![start_url@],
            r@.host == host_str_of(start_url@),
    {
        CheckerLogic { history: CrawlHistory::with_start(start_url) }
    }

    /// Admits `url` when its host is the registry's host and it was not
    /// admitted before; says whether it did.
    pub fn to_be_visited(&mut self, url: Link) -> (r: bool)
        requires
            old(self).wf(),
        ensures
            final(self).wf(),
            r == (in_scope(old(self)@.host, url@) && !old(self)@.admitted.contains(url@)),
            final(self)@.host == old(self)@.host,
            final(self)@.admitted == if r {
                old(self)@.admitted.push(url@)
            } else {
                old(self)@.admitted
            },
    {
        self.history.to_be_visited(&url)
    }
}

} // verus!
