use ott_demo_api::ids::{classify_identifier, decode_cursor, encode_cursor, GameKey};
use ott_demo_api::search::{plan_search, BindValue, SearchRequest};

const ID: u128 = 0x550e8400e29b41d4a716446655440000;

fn search_after(cursor: String) -> SearchRequest {
    SearchRequest {
        rating_min: None, rating_max: None, min_rating_votes: None, confidence_min: None,
        weight_min: None, weight_max: None, players: None, players_min: None, players_max: None,
        top_at: None, recommended_at: None, playtime_min: None, playtime_max: None,
        playtime_source: None, playtime_experience: None, age_min: None, age_max: None,
        age_source: None, game_type: None, mode: None, mechanics: None, mechanics_all: None,
        mechanics_not: None, themes: None, theme_not: None, designer: None, publisher: None,
        category: None, year_min: None, year_max: None, effective: None, sort: None, order: None,
        limit: None, cursor: Some(cursor),
    }
}

#[test]
fn uuid_text_is_hyphenated_lower_case() {
    let plan = plan_search(&search_after(encode_cursor(ID)));
    assert_eq!(plan.binds[0], BindValue::Str("550e8400-e29b-41d4-a716-446655440000".to_string()));
    let plan = plan_search(&search_after(encode_cursor(1)));
    assert_eq!(plan.binds[0], BindValue::Str("00000000-0000-0000-0000-000000000001".to_string()));
}

#[test]
fn cursor_is_base64url_of_the_uuid_text() {
    assert_eq!(encode_cursor(ID), "NTUwZTg0MDAtZTI5Yi00MWQ0LWE3MTYtNDQ2NjU1NDQwMDAw");
}

#[test]
fn cursor_round_trip() {
    for id in [0u128, 1, ID, u128::MAX, 0xdeadbeef] {
        assert_eq!(decode_cursor(&encode_cursor(id)), Some(id));
    }
}

#[test]
fn bad_cursors_name_nothing() {
    assert_eq!(decode_cursor("not base64 !!"), None);
    // valid base64url of "hello", which is no UUID
    assert_eq!(decode_cursor("aGVsbG8"), None);
    assert_eq!(decode_cursor(""), None);
}

#[test]
fn identifier_uuid_or_slug() {
    match classify_identifier("550e8400-e29b-41d4-a716-446655440000") {
        GameKey::Id(v) => assert_eq!(v, ID),
        GameKey::Slug(_) => panic!("expected a UUID"),
    }
    match classify_identifier("550E8400E29B41D4A716446655440000") {
        GameKey::Id(v) => assert_eq!(v, ID),
        GameKey::Slug(_) => panic!("expected a UUID"),
    }
    match classify_identifier("spirit-island") {
        GameKey::Slug(s) => assert_eq!(s, "spirit-island"),
        GameKey::Id(_) => panic!("expected a slug"),
    }
}
