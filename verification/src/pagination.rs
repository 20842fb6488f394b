//! The pagination oracle: guesses from one page of results whether another
//! page exists. The server sends no total, so a full page is the only sign.

use vstd::prelude::*;
use crate::router::{ListingKind, PAGE_SIZE};

verus! {

/// Whether a view ever reports a further page. A search is taken to be
/// exhaustive, and the recently-updated view is a fixed snapshot.
pub open spec fn reports_more(kind: ListingKind) -> bool {
    kind != ListingKind::Search && kind != ListingKind::RecentlyUpdated
}

/// Whether more results are likely after a page of `count` results.
pub open spec fn more_expected(count: int, kind: ListingKind) -> bool {
    reports_more(kind) && count == PAGE_SIZE
}

/// Decides whether a further page is likely: only after a page of exactly
/// forty results, and never for a search or the recently-updated view.
pub fn has_more(count: usize, kind: ListingKind) -> (more: bool)
    ensures
        more == more_expected(count as int, kind),
        kind == ListingKind::RecentlyUpdated ==> !more,
        kind == ListingKind::Search ==> !more,
        reports_more(kind) && count == 40 ==> more,
        count < 40 ==> !more,
{
    match kind {
        ListingKind::Search => false,
        ListingKind::RecentlyUpdated => false,
        _ => count == 40,
    }
}

} // verus!
