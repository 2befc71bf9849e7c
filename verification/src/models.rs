//! Response pieces shared by the endpoints: hypermedia links, pagination
//! metadata and Problem Details errors.

use crate::text::cat3;
use vstd::prelude::*;

verus! {

/// A hypermedia link.
pub struct Link {
    pub href: String,
    pub title: Option<String>,
}

/// Keyset pagination metadata.
pub struct PaginationMeta {
    pub total: i64,
    pub next_cursor: Option<String>,
    pub prev_cursor: Option<String>,
}

/// The `self`, `next` and `prev` links of a page.
pub struct PaginationLinks {
    pub self_link: Link,
    pub next: Option<Link>,
    pub prev: Option<Link>,
}

/// An expansion through which a game matched an effective-mode filter.
pub struct MatchedExpansion {
    pub slug: String,
    pub name: String,
}

/// The properties of the expansion combination through which a game matched
/// (the weight as the IEEE-754 bit pattern of the decimal).
pub struct EffectiveMatchProperties {
    pub min_players: Option<i32>,
    pub max_players: Option<i32>,
    pub weight: Option<u64>,
    pub min_playtime: Option<i32>,
    pub max_playtime: Option<i32>,
}

/// How a game matched an effective-mode player-count filter.
pub struct MatchedVia {
    pub match_type: String,
    pub expansions: Option<Vec<MatchedExpansion>>,
    pub effective_properties: Option<EffectiveMatchProperties>,
    pub resolution_tier: i32,
}

/// A Problem Details error body.
pub struct ErrorResponse {
    pub error_type: String,
    pub title: String,
    pub status: u16,
    pub detail: Option<String>,
}

/// `l` is an untitled link to `href`.
pub open spec fn is_link_to(l: Link, href: Seq<char>) -> bool {
    l.href@ == href && l.title is None
}

/// The path of a game's resource.
pub open spec fn game_path(id_or_slug: Seq<char>) -> Seq<char> {
    "/v1/games/"@ + id_or_slug
}

/// An untitled link to `href`.
pub fn link_to(href: String) -> (l: Link)
    ensures
        l.href == href,
        l.title is None,
{
    Link { href, title: None }
}

/// An untitled link to the game's path followed by `suffix`.
pub fn game_link(id_or_slug: &str, suffix: &str) -> (l: Link)
    ensures
        is_link_to(l, game_path(id_or_slug@) + suffix@),
{
    link_to(cat3("/v1/games/", id_or_slug, suffix))
}

/// The error body of a failure inside the server (status 500).
pub fn internal_error() -> (e: ErrorResponse)
    ensures
        e.error_type@ == "about:blank"@,
        e.title@ == "Internal Server Error"@,
        e.status == 500,
        e.detail is None,
{
    ErrorResponse {
        error_type: String::from_str("about:blank"),
        title: String::from_str("Internal Server Error"),
        status: 500,
        detail: None,
    }
}

/// The error body of a refused request (status 400), with its reason.
pub fn bad_request(detail: &str) -> (e: ErrorResponse)
    ensures
        e.error_type@ == "about:blank"@,
        e.title@ == "Bad Request"@,
        e.status == 400,
        e.detail is Some,
        e.detail.unwrap()@ == detail@,
{
    ErrorResponse {
        error_type: String::from_str("about:blank"),
        title: String::from_str("Bad Request"),
        status: 400,
        detail: Some(String::from_str(detail)),
    }
}

/// The error body for a game that no identifier matched (status 404).
pub fn not_found(id_or_slug: &str) -> (e: ErrorResponse)
    ensures
        e.error_type@ == "about:blank"@,
        e.title@ == "Not Found"@,
        e.status == 404,
        e.detail is Some,
        e.detail.unwrap()@ == "Game '"@ + id_or_slug@ + "' not found."@,
{
    ErrorResponse {
        error_type: String::from_str("about:blank"),
        title: String::from_str("Not Found"),
        status: 404,
        detail: Some(cat3("Game '", id_or_slug, "' not found.")),
    }
}

} // verus!
