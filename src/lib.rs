//! A host-scoped link checker: URL resolution, link extraction, a visited
//! registry and a coordinator that detects the end of a self-expanding crawl.
use vstd::prelude::*;

pub mod link;
pub mod history;
pub mod page;
pub mod coordinator;

verus! {

} // verus!
