//! The answer of the aggregate materialization pipeline.

use crate::text::{append_i64, int_text};
use vstd::prelude::*;

verus! {

/// The answer of a completed materialization.
pub struct MaterializeResponse {
    pub status: &'static str,
    pub games_updated: i64,
    pub message: String,
}

/// The answer of a completed materialization that updated `games_updated`
/// games, given the global mean rating written with two decimals.
pub fn materialized(games_updated: i64, global_mean_text: &str) -> (r: MaterializeResponse)
    ensures
        r.status@ == "complete"@,
        r.games_updated == games_updated,
        r.message@ == "Materialized aggregates for "@ + int_text(games_updated as int)
            + " games. Global mean: "@ + global_mean_text@
            + ". Rankings, confidence, weight, and player count arrays updated."@,
{
    let mut m = String::from_str("Materialized aggregates for ");
    append_i64(&mut m, games_updated);
    m.append(" games. Global mean: ");
    m.append(global_mean_text);
    m.append(". Rankings, confidence, weight, and player count arrays updated.");
    MaterializeResponse { status: "complete", games_updated, message: m }
}

} // verus!
