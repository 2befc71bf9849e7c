//! Historical snapshots of a game's materialized aggregates.

use crate::games::{cap_limit, capped_limit};
use crate::models::{game_link, game_path, is_link_to, Link};
use vstd::prelude::*;

verus! {

/// Query parameters of the snapshot list.
pub struct SnapshotParams {
    pub limit: Option<i64>,
}

/// The links of a game's snapshots.
pub struct SnapshotLinks {
    pub self_link: Link,
    pub game: Link,
}

/// How many snapshots to return: the requested number (90 by default),
/// at most 365.
pub fn snapshot_limit(p: &SnapshotParams) -> (n: i64)
    ensures
        n == capped_limit(p.limit, 90, 365),
        n <= 365,
{
    cap_limit(p.limit, 90, 365)
}

/// The links of the snapshots of the game named `id_or_slug`.
pub fn snapshot_links(id_or_slug: &str) -> (l: SnapshotLinks)
    ensures
        is_link_to(l.self_link, game_path(id_or_slug@) + "/snapshots"@),
        is_link_to(l.game, game_path(id_or_slug@)),
{
    let game = game_link(id_or_slug, "");
    proof {
        assert(game_path(id_or_slug@) + ""@ =~= game_path(id_or_slug@)) by {
            reveal_strlit("");
        }
    }
    SnapshotLinks { self_link: game_link(id_or_slug, "/snapshots"), game }
}

} // verus!
