use ott_demo_api::experience_playtime::experience_links;
use ott_demo_api::fulltext_search::{search_limit, search_links, SearchParams};
use ott_demo_api::health::{liveness, readiness};
use ott_demo_api::materialize::materialized;
use ott_demo_api::models::{internal_error, not_found};
use ott_demo_api::player_counts::player_count_links;
use ott_demo_api::relationships::{plan_relationships, relationship_links, RelationshipParams, RelationshipQuery};
use ott_demo_api::snapshots::{snapshot_limit, snapshot_links, SnapshotParams};
use ott_demo_api::votes::{rating_recorded, review_rating, weight_recorded, weight_rejected};

#[test]
fn problem_details() {
    let e = not_found("catan");
    assert_eq!(e.status, 404);
    assert_eq!(e.title, "Not Found");
    assert_eq!(e.error_type, "about:blank");
    assert_eq!(e.detail.as_deref(), Some("Game 'catan' not found."));
    let e = internal_error();
    assert_eq!(e.status, 500);
    assert_eq!(e.title, "Internal Server Error");
    assert!(e.detail.is_none());
}

#[test]
fn rating_votes_are_reviewed() {
    for bad in [0, -1, 11, i32::MIN, i32::MAX] {
        let e = review_rating(bad).unwrap();
        assert_eq!(e.status, 400);
        assert_eq!(e.title, "Bad Request");
        assert_eq!(e.error_type, "about:blank");
        assert_eq!(e.detail.as_deref(), Some("Rating must be between 1 and 10."));
    }
    for good in 1..=10 {
        assert!(review_rating(good).is_none());
    }
    let (code, body) = rating_recorded(8, "spirit-island");
    assert_eq!(code, 201);
    assert_eq!(body.status, "accepted");
    assert_eq!(
        body.message,
        "Rating of 8 recorded for game 'spirit-island'. Aggregates will update on next materialization."
    );
}

#[test]
fn weight_vote_answers() {
    let e = weight_rejected();
    assert_eq!(e.status, 400);
    assert_eq!(e.title, "Bad Request");
    assert_eq!(e.error_type, "about:blank");
    assert_eq!(e.detail.as_deref(), Some("Weight must be between 1.0 and 5.0."));
    let (code, body) = weight_recorded("3.5", "catan");
    assert_eq!(code, 201);
    assert_eq!(
        body.message,
        "Weight of 3.5 recorded for game 'catan'. Aggregates will update on next materialization."
    );
}

#[test]
fn sub_resource_links() {
    let l = player_count_links("catan");
    assert_eq!(l.self_link.href, "/v1/games/catan/player-count-ratings");
    assert_eq!(l.game.href, "/v1/games/catan");
    let l = experience_links("catan");
    assert_eq!(l.self_link.href, "/v1/games/catan/experience-playtime");
    assert_eq!(l.game.href, "/v1/games/catan");
    let l = relationship_links("catan");
    assert_eq!(l.self_link.href, "/v1/games/catan/relationships");
    let l = snapshot_links("catan");
    assert_eq!(l.self_link.href, "/v1/games/catan/snapshots");
    assert_eq!(l.game.href, "/v1/games/catan");
    assert_eq!(search_links("space opera").self_link.href, "/v1/search?q=space opera");
}

#[test]
fn limits() {
    assert_eq!(snapshot_limit(&SnapshotParams { limit: None }), 90);
    assert_eq!(snapshot_limit(&SnapshotParams { limit: Some(1000) }), 365);
    assert_eq!(snapshot_limit(&SnapshotParams { limit: Some(10) }), 10);
    let p = SearchParams { q: "x".to_string(), entity_type: None, limit: None };
    assert_eq!(search_limit(&p), 25);
    let p = SearchParams { q: "x".to_string(), entity_type: None, limit: Some(101) };
    assert_eq!(search_limit(&p), 100);
}

fn rel(t: Option<&str>, d: Option<&str>) -> RelationshipQuery {
    plan_relationships(&RelationshipParams {
        rel_type: t.map(|x| x.to_string()),
        direction: d.map(|x| x.to_string()),
    })
}

#[test]
fn relationship_queries() {
    assert!(matches!(rel(Some("expands"), Some("outbound")), RelationshipQuery::Outbound(t) if t == "expands"));
    assert!(matches!(rel(Some("expands"), Some("inbound")), RelationshipQuery::Inbound(t) if t == "expands"));
    assert!(matches!(rel(None, Some("outbound")), RelationshipQuery::Both(None)));
    assert!(matches!(rel(None, None), RelationshipQuery::Both(None)));
    assert!(matches!(rel(Some("expands"), None), RelationshipQuery::Both(Some(t)) if t == "expands"));
    assert!(matches!(rel(Some("expands"), Some("sideways")), RelationshipQuery::Both(Some(t)) if t == "expands"));
}

#[test]
fn probes() {
    assert_eq!(liveness().status, "ok");
    assert_eq!(readiness(true).unwrap().status, "ready");
    assert_eq!(readiness(false).err(), Some(503));
}

#[test]
fn materialization_answer() {
    let r = materialized(12, "7.31");
    assert_eq!(r.status, "complete");
    assert_eq!(r.games_updated, 12);
    assert_eq!(
        r.message,
        "Materialized aggregates for 12 games. Global mean: 7.31. Rankings, confidence, weight, and player count arrays updated."
    );
}
