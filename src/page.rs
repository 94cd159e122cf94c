//! What a fetched page yields: a failure, or the absolute links it holds.
use vstd::prelude::*;
use crate::history::texts;
use crate::link::{joined, Link, ResolveError};

verus! {

/// The `href` values of the document's `a` elements, in the order in which
/// the parsed tree holds them (document order, unless the parser had to
/// re-create misnested elements); elements without the attribute contribute
/// nothing.
pub uninterp spec fn anchor_hrefs_of(body: Seq<char>) -> Seq<Seq<char>>;

/// Relies on scraper: `Html::parse_document` on the body, `Selector::parse("a")`
/// (a valid selector, so it cannot fail) and `ElementRef::value().attr("href")`
/// on each selected element, in the tree's order. Parsing never fails: broken
/// markup is repaired by the HTML5 parser.
#[verifier::external_body]
fn anchor_hrefs(body: &str) -> (r: Vec<String>)
    ensures
        texts(r@) == anchor_hrefs_of(body@),
{
    let document = scraper::Html::parse_document(body);
    let selector = scraper::Selector::parse("a").unwrap();
    document.select(&selector).filter_map(|e| e.value().attr("href")).map(|h| h.to_owned()).collect()
}

/// Why a fetch failed; each such failure ends the crawl.
#[derive(Clone, Debug)]
pub enum FetchError {
    /// The server could not be reached, or the body could not be read.
    Transport(String),
    /// The response status lies outside the success range.
    BadResponse(u16),
}

/// A status in the success range.
pub open spec fn success_status(status: u16) -> bool {
    200 <= status < 300
}

/// Whether `status` lies in the success range 200 to 299.
pub fn is_success(status: u16) -> (r: bool)
    ensures
        r == success_status(status),
{
    200 <= status && status < 300
}

/// `Ok` for a status in the success range, else the failure that carries it.
pub fn check_status(status: u16) -> (r: Result<(), FetchError>)
    ensures
        success_status(status) <==> r is Ok,
        !success_status(status) ==> r == Err::<(), FetchError>(FetchError::BadResponse(status)),
{
    if is_success(status) {
        Ok(())
    } else {
        Err(FetchError::BadResponse(status))
    }
}

/// The absolute URLs that `hrefs` resolve to against `base`, in order,
/// leaving out those that do not resolve.
pub open spec fn resolved_links(base: Seq<char>, hrefs: Seq<Seq<char>>) -> Seq<Seq<char>>
    decreases hrefs.len(),
{
    if hrefs.len() == 0 {
        Seq::empty()
    } else {
        let prev = resolved_links(base, hrefs.drop_last());
        match joined(base, hrefs.last()) {
            Some(u) => prev.push(u),
            None => prev,
        }
    }
}

/// The hrefs that do not resolve against `base`, in order.
pub open spec fn unresolved_hrefs(base: Seq<char>, hrefs: Seq<Seq<char>>) -> Seq<Seq<char>>
    decreases hrefs.len(),
{
    if hrefs.len() == 0 {
        Seq::empty()
    } else {
        let prev = unresolved_hrefs(base, hrefs.drop_last());
        match joined(base, hrefs.last()) {
            Some(_) => prev,
            None => prev.push(hrefs.last()),
        }
    }
}

/// The views of a sequence of links.
pub open spec fn link_texts(v: Seq<Link>) -> Seq<Seq<char>> {
    v.map_values(|l: Link| l@)
}

/// The hrefs of a sequence of resolution failures.
pub open spec fn error_hrefs(v: Seq<ResolveError>) -> Seq<Seq<char>> {
    v.map_values(|e: ResolveError| e.href@)
}

/// The links found on a page, and the hrefs skipped because they did not resolve.
#[derive(Clone, Debug)]
pub struct PageScan {
    pub links: Vec<Link>,
    pub skipped: Vec<ResolveError>,
}

/// The scan of `hrefs` against `base`.
pub open spec fn scans_to(base: Seq<char>, hrefs: Seq<Seq<char>>, r: PageScan) -> bool {
    &&& link_texts(r.links@) == resolved_links(base, hrefs)
    &&& error_hrefs(r.skipped@) == unresolved_hrefs(base, hrefs)
    &&& forall|i: int| 0 <= i < r.skipped@.len() ==> (#[trigger] r.skipped@[i]).base@ == base
}

/// Resolves each of `hrefs` against `base`: the resolved links in order, and
/// a diagnostic for each href that does not resolve.
pub fn links_from_hrefs(base: &Link, hrefs: &Vec<String>) -> (r: PageScan)
    ensures
        scans_to(base@, texts(hrefs@), r),
{
    let mut links: Vec<Link> = Vec::new();
    let mut skipped: Vec<ResolveError> = Vec::new();
    let mut i: usize = 0;
    assert(link_texts(links@) =~= Seq::<Seq<char>>::empty());
    assert(error_hrefs(skipped@) =~= Seq::<Seq<char>>::empty());
    assert(texts(hrefs@).take(0) =~= Seq::<Seq<char>>::empty());
    while i < hrefs.len()
        invariant
            i <= hrefs@.len(),
            scans_to(base@, texts(hrefs@).take(i as int), (PageScan { links, skipped })),
        decreases hrefs@.len() - i,
    {
        let ghost prefix = texts(hrefs@).take(i as int);
        let ghost next = texts(hrefs@).take(i + 1);
        assert(next.drop_last() =~= prefix);
        assert(next.last() == hrefs@[i as int]@);
        match base.resolve(hrefs[i].as_str()) {
            Ok(l) => {
                links.push(l);
                assert(link_texts(links@) =~= resolved_links(base@, prefix).push(l@));
            },
            Err(e) => {
                skipped.push(e);
                assert(error_hrefs(skipped@) =~= unresolved_hrefs(base@, prefix).push(hrefs@[i as int]@));
            },
        }
        i = i + 1;
    }
    assert(texts(hrefs@).take(hrefs@.len() as int) =~= texts(hrefs@));
    PageScan { links, skipped }
}

/// The links of the document `body`, resolved against `base`.
pub fn scan_page(base: &Link, body: &str) -> (r: PageScan)
    ensures
        scans_to(base@, anchor_hrefs_of(body@), r),
{
    let hrefs = anchor_hrefs(body);
    links_from_hrefs(base, &hrefs)
}

/// What a fetch yields once the response is in: the failure for a status
/// outside the success range, else the links of the body, resolved against
/// `final_url` (the URL after redirects).
pub fn visit_page(status: u16, final_url: &Link, body: &str) -> (r: Result<PageScan, FetchError>)
    ensures
        success_status(status) <==> r is Ok,
        match r {
            Ok(scan) => scans_to(final_url@, anchor_hrefs_of(body@), scan),
            Err(e) => e == FetchError::BadResponse(status),
        },
{
    match check_status(status) {
        Ok(()) => Ok(scan_page(final_url, body)),
        Err(e) => Err(e),
    }
}

} // verus!
