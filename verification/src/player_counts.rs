//! Per-player-count community ratings of a game.

use crate::models::{game_link, game_path, is_link_to, Link};
use vstd::prelude::*;

verus! {

/// The links of a game's player-count ratings.
pub struct PlayerCountLinks {
    pub self_link: Link,
    pub game: Link,
}

/// The links of the player-count ratings of the game named `id_or_slug`.
pub fn player_count_links(id_or_slug: &str) -> (l: PlayerCountLinks)
    ensures
        is_link_to(l.self_link, game_path(id_or_slug@) + "/player-count-ratings"@),
        is_link_to(l.game, game_path(id_or_slug@)),
{
    let game = game_link(id_or_slug, "");
    proof {
        assert(game_path(id_or_slug@) + ""@ =~= game_path(id_or_slug@)) by {
            reveal_strlit("");
        }
    }
    PlayerCountLinks { self_link: game_link(id_or_slug, "/player-count-ratings"), game }
}

} // verus!
