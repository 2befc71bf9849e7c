//! Request shaping, query planning and response building for the tabletop
//! game catalogue API: everything the HTTP handlers decide before and after
//! they talk to the database.

pub mod effective;
pub mod experience_playtime;
pub mod fulltext_search;
pub mod games;
pub mod health;
pub mod ids;
pub mod keyset;
pub mod materialize;
pub mod models;
pub mod player_counts;
pub mod relationships;
pub mod search;
pub mod snapshots;
pub mod text;
pub mod votes;
