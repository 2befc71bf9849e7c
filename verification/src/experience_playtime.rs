//! Play time by experience level (first play through expert).

use crate::models::{game_link, game_path, is_link_to, Link};
use vstd::prelude::*;

verus! {

/// Reported play time at one experience level.
pub struct ExperienceLevel {
    pub experience_level: String,
    pub median_minutes: i32,
    pub p10_minutes: Option<i32>,
    pub p90_minutes: Option<i32>,
    pub report_count: i32,
}

/// The links of a game's experience-level play time.
pub struct ExperienceLinks {
    pub self_link: Link,
    pub game: Link,
}

/// The links of the experience-level play time of the game named `id_or_slug`.
pub fn experience_links(id_or_slug: &str) -> (l: ExperienceLinks)
    ensures
        is_link_to(l.self_link, game_path(id_or_slug@) + "/experience-playtime"@),
        is_link_to(l.game, game_path(id_or_slug@)),
{
    let game = game_link(id_or_slug, "");
    proof {
        assert(game_path(id_or_slug@) + ""@ =~= game_path(id_or_slug@)) by {
            reveal_strlit("");
        }
    }
    ExperienceLinks { self_link: game_link(id_or_slug, "/experience-playtime"), game }
}

} // verus!
