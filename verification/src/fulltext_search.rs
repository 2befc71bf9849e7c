//! Full-text search over game names and descriptions.

use crate::games::{cap_limit, capped_limit};
use crate::models::{is_link_to, link_to, Link};
use crate::text::cat;
use vstd::prelude::*;

verus! {

/// Query parameters of the full-text search.
pub struct SearchParams {
    pub q: String,
    pub entity_type: Option<String>,
    pub limit: Option<i64>,
}

/// The links of a full-text search result.
pub struct SearchLinks {
    pub self_link: Link,
}

/// How many results to return: the requested number (25 by default), at most 100.
pub fn search_limit(p: &SearchParams) -> (n: i64)
    ensures
        n == capped_limit(p.limit, 25, 100),
        n <= 100,
{
    cap_limit(p.limit, 25, 100)
}

/// The links of the search for `q`.
pub fn search_links(q: &str) -> (l: SearchLinks)
    ensures
        is_link_to(l.self_link, "/v1/search?q="@ + q@),
{
    SearchLinks { self_link: link_to(cat("/v1/search?q=", q)) }
}

} // verus!
