//! Typed directed relationships between games (expands, reimplements, ...).

use crate::models::{game_link, game_path, is_link_to, Link};
use crate::text::{opt_view, same_text};
use vstd::prelude::*;

verus! {

/// Query parameters of the relationship list.
pub struct RelationshipParams {
    pub rel_type: Option<String>,
    pub direction: Option<String>,
}

/// The links of a game's relationships.
pub struct RelationshipLinks {
    pub self_link: Link,
    pub game: Link,
}

/// Which relationships of a game to list.
pub enum RelationshipQuery {
    /// Edges from the game, of this type, ordered by ordinal then target name.
    Outbound(String),
    /// Edges to the game, of this type, ordered by ordinal then source name.
    Inbound(String),
    /// Edges in either direction, of the given type (of any type when none
    /// is given), ordered by type then ordinal.
    Both(Option<String>),
}

/// The direction is given and equals `d`.
pub open spec fn direction_is(p: RelationshipParams, d: Seq<char>) -> bool {
    p.direction is Some && p.direction.unwrap()@ == d
}

/// Chooses the relationship query: one direction when a direction and a type
/// are both given, otherwise both directions, filtered by the type if one is
/// given.
pub fn plan_relationships(p: &RelationshipParams) -> (q: RelationshipQuery)
    ensures
        match q {
            RelationshipQuery::Outbound(t) => direction_is(*p, "outbound"@) && p.rel_type is Some
                && t@ == p.rel_type.unwrap()@,
            RelationshipQuery::Inbound(t) => direction_is(*p, "inbound"@) && p.rel_type is Some
                && t@ == p.rel_type.unwrap()@,
            RelationshipQuery::Both(t) => !(p.rel_type is Some && (direction_is(*p, "outbound"@)
                || direction_is(*p, "inbound"@))) && opt_view(t) == opt_view(p.rel_type),
        },
{
    match (&p.direction, &p.rel_type) {
        (Some(d), Some(t)) => {
            if same_text(d.as_str(), "outbound") {
                RelationshipQuery::Outbound(t.clone())
            } else if same_text(d.as_str(), "inbound") {
                RelationshipQuery::Inbound(t.clone())
            } else {
                RelationshipQuery::Both(Some(t.clone()))
            }
        },
        (_, Some(t)) => RelationshipQuery::Both(Some(t.clone())),
        (_, None) => RelationshipQuery::Both(None),
    }
}

/// The links of the relationships of the game named `id_or_slug`.
pub fn relationship_links(id_or_slug: &str) -> (l: RelationshipLinks)
    ensures
        is_link_to(l.self_link, game_path(id_or_slug@) + "/relationships"@),
        is_link_to(l.game, game_path(id_or_slug@)),
{
    let game = game_link(id_or_slug, "");
    proof {
        assert(game_path(id_or_slug@) + ""@ =~= game_path(id_or_slug@)) by {
            reveal_strlit("");
        }
    }
    RelationshipLinks { self_link: game_link(id_or_slug, "/relationships"), game }
}

} // verus!
