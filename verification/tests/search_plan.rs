use ott_demo_api::ids::encode_cursor;
use ott_demo_api::search::{plan_search, qualify_columns, search_page, BindValue, SearchRequest};
use ott_demo_api::games::GAME_COLUMNS;

const COLS: &str = "g.id, g.slug, g.name, g.type, g.sort_name, g.parent_game_id, g.year_published,\n     description, g.description_short, g.min_players, g.max_players,\n     min_playtime, g.max_playtime,\n     community_min_playtime, g.community_max_playtime,\n     community_median_playtime, g.min_age, g.community_suggested_age,\n     rating::FLOAT8, g.bayes_rating::FLOAT8, g.rating_votes,\n     rating_stddev::FLOAT8, g.rating_confidence::FLOAT8, g.rating_distribution,\n     weight::FLOAT8, g.weight_votes, g.rank_overall,\n     owner_count, g.wishlist_count, g.total_plays, g.mode, g.funding_source,\n     language_dependence, g.image_url, g.thumbnail_url, g.bgg_id, g.status,\n     top_player_counts, g.recommended_player_counts, g.created_at, g.updated_at";

fn request() -> SearchRequest {
    SearchRequest {
        rating_min: None,
        rating_max: None,
        min_rating_votes: None,
        confidence_min: None,
        weight_min: None,
        weight_max: None,
        players: None,
        players_min: None,
        players_max: None,
        top_at: None,
        recommended_at: None,
        playtime_min: None,
        playtime_max: None,
        playtime_source: None,
        playtime_experience: None,
        age_min: None,
        age_max: None,
        age_source: None,
        game_type: None,
        mode: None,
        mechanics: None,
        mechanics_all: None,
        mechanics_not: None,
        themes: None,
        theme_not: None,
        designer: None,
        publisher: None,
        category: None,
        year_min: None,
        year_max: None,
        effective: None,
        sort: None,
        order: None,
        limit: None,
        cursor: None,
    }
}

fn s(x: &str) -> String {
    x.to_string()
}

#[test]
fn qualified_columns_match_the_game_columns() {
    assert_eq!(qualify_columns(GAME_COLUMNS), COLS);
    assert_eq!(qualify_columns("a,  b, c"), "g.a, g.b, g.c");
    assert_eq!(qualify_columns("a,b"), "g.a,b");
}

#[test]
fn empty_search() {
    let plan = plan_search(&request());
    assert_eq!(plan.limit, 25);
    assert_eq!(plan.count_sql, "SELECT COUNT(*) FROM games g ");
    assert_eq!(plan.count_bind_count, 0);
    assert_eq!(
        plan.data_sql,
        format!("SELECT {} FROM games g  ORDER BY g.rating DESC NULLS LAST, g.id ASC LIMIT $1", COLS)
    );
    assert_eq!(plan.binds, vec![BindValue::Bigint(25)]);
}

#[test]
fn placeholders_are_numbered_in_order() {
    let mut r = request();
    r.rating_min = Some(7.5f64.to_bits());
    r.weight_max = Some(3.0f64.to_bits());
    r.players_min = Some(2);
    r.year_min = Some(2015);
    r.limit = Some(10);
    let plan = plan_search(&r);
    let where_sql = "WHERE g.rating >= $1 AND g.weight <= $2 AND g.max_players >= $3 AND g.year_published >= $4";
    assert_eq!(plan.count_sql, format!("SELECT COUNT(*) FROM games g {}", where_sql));
    assert!(plan.data_sql.ends_with(&format!(
        "{} ORDER BY g.rating DESC NULLS LAST, g.id ASC LIMIT $5",
        where_sql
    )));
    assert_eq!(
        plan.binds,
        vec![
            BindValue::Float(7.5f64.to_bits()),
            BindValue::Float(3.0f64.to_bits()),
            BindValue::Int(2),
            BindValue::Int(2015),
            BindValue::Bigint(10),
        ]
    );
    assert_eq!(plan.count_bind_count, 4);
}

#[test]
fn players_bind_twice_or_five_times() {
    let mut r = request();
    r.players = Some(5);
    let plan = plan_search(&r);
    assert_eq!(plan.count_sql, "SELECT COUNT(*) FROM games g WHERE g.min_players <= $1 AND g.max_players >= $2");
    assert_eq!(plan.binds.len(), 3);
    r.effective = Some(true);
    let plan = plan_search(&r);
    assert!(plan.effective);
    assert_eq!(
        plan.binds[..5],
        [BindValue::Int(5), BindValue::Int(5), BindValue::Int(5), BindValue::Int(5), BindValue::Int(5)][..]
    );
    assert!(plan.count_sql.contains("effective_max_players >= $4"));
    assert!(plan.count_sql.contains("MAX(max_players_delta) >= $5"));
    assert!(plan.data_sql.ends_with("LIMIT $6"));
}

#[test]
fn list_dimensions_use_one_placeholder_per_value() {
    let mut r = request();
    r.game_type = Some(vec![s("base_game"), s("expansion")]);
    r.mechanics_all = Some(vec![s("deck-building"), s("drafting")]);
    r.theme_not = Some(vec![s("horror")]);
    let plan = plan_search(&r);
    assert!(plan.count_sql.starts_with("SELECT COUNT(*) FROM games g WHERE g.type IN ($1, $2) AND EXISTS (SELECT 1 FROM game_mechanics gm JOIN mechanics m ON m.id = gm.mechanic_id WHERE gm.game_id = g.id AND m.slug = $3) AND EXISTS (SELECT 1 FROM game_mechanics gm JOIN mechanics m ON m.id = gm.mechanic_id WHERE gm.game_id = g.id AND m.slug = $4) AND NOT EXISTS (SELECT 1 FROM game_themes gt JOIN themes t ON t.id = gt.theme_id WHERE gt.game_id = g.id AND t.slug IN ($5))"));
    assert_eq!(
        plan.binds,
        vec![
            BindValue::Str(s("base_game")),
            BindValue::Str(s("expansion")),
            BindValue::Str(s("deck-building")),
            BindValue::Str(s("drafting")),
            BindValue::Str(s("horror")),
            BindValue::Bigint(25),
        ]
    );
}

#[test]
fn experience_playtime_subquery() {
    let mut r = request();
    r.playtime_experience = Some(s("expert"));
    r.playtime_max = Some(60);
    let plan = plan_search(&r);
    assert_eq!(plan.count_sql, "SELECT COUNT(*) FROM games g WHERE EXISTS (SELECT 1 FROM experience_playtime ep WHERE ep.game_id = g.id AND ep.experience_level = $1 AND ep.median_minutes <= $2)");
    assert_eq!(plan.binds[..2], [BindValue::Str(s("expert")), BindValue::Int(60)][..]);
}

#[test]
fn playtime_and_age_sources() {
    let mut r = request();
    r.playtime_min = Some(30);
    r.playtime_max = Some(90);
    r.playtime_source = Some(s("community"));
    r.age_min = Some(10);
    r.age_source = Some(s("community"));
    let plan = plan_search(&r);
    assert_eq!(plan.count_sql, "SELECT COUNT(*) FROM games g WHERE g.community_max_playtime >= $1 AND g.community_min_playtime <= $2 AND g.community_suggested_age >= $3");
    r.playtime_source = None;
    r.age_source = Some(s("publisher"));
    let plan = plan_search(&r);
    assert_eq!(plan.count_sql, "SELECT COUNT(*) FROM games g WHERE g.max_playtime >= $1 AND g.min_playtime <= $2 AND g.min_age >= $3");
}

#[test]
fn metadata_dimension() {
    let mut r = request();
    r.designer = Some(s("uwe"));
    r.mode = Some(s("cooperative"));
    let plan = plan_search(&r);
    assert_eq!(plan.count_sql, "SELECT COUNT(*) FROM games g WHERE g.mode = $1 AND EXISTS (SELECT 1 FROM game_credits gc JOIN people p ON p.id = gc.person_id WHERE gc.game_id = g.id AND gc.role = 'designer' AND p.slug = $2)");
}

#[test]
fn cursor_is_bound_after_the_filters() {
    let mut r = request();
    r.min_rating_votes = Some(30);
    r.cursor = Some(encode_cursor(1));
    let plan = plan_search(&r);
    assert_eq!(plan.cursor_id, Some(1));
    assert_eq!(plan.count_sql, "SELECT COUNT(*) FROM games g WHERE g.rating_votes >= $1");
    assert_eq!(plan.count_bind_count, 1);
    let sel = "(SELECT k.rating FROM games k WHERE k.id = $2::uuid)";
    let cond = format!(
        "(CASE WHEN {sel} IS NULL THEN g.rating IS NULL AND g.id > $2::uuid ELSE g.rating < {sel} OR (g.rating = {sel} AND g.id > $2::uuid) OR g.rating IS NULL END)"
    );
    assert!(plan
        .data_sql
        .contains(&format!("WHERE g.rating_votes >= $1 AND {} ORDER BY g.rating DESC NULLS LAST, g.id ASC", cond)));
    assert_eq!(
        plan.binds,
        vec![
            BindValue::Int(30),
            BindValue::Str(s("00000000-0000-0000-0000-000000000001")),
            BindValue::Bigint(25),
        ]
    );
}

#[test]
fn ascending_name_cursor() {
    let mut r = request();
    r.sort = Some(s("name"));
    r.order = Some(s("asc"));
    r.cursor = Some(encode_cursor(3));
    let plan = plan_search(&r);
    let sel = "(SELECT k.name FROM games k WHERE k.id = $1::uuid)";
    let cond = format!(
        "(CASE WHEN {sel} IS NULL THEN g.name IS NULL AND g.id > $1::uuid ELSE g.name > {sel} OR (g.name = {sel} AND g.id > $1::uuid) OR g.name IS NULL END)"
    );
    assert!(plan.data_sql.contains(&format!("WHERE {} ORDER BY g.name ASC NULLS LAST, g.id ASC LIMIT $2", cond)));
    assert_eq!(
        plan.binds,
        vec![BindValue::Str(s("00000000-0000-0000-0000-000000000003")), BindValue::Bigint(25)]
    );
}

#[test]
fn cursor_alone_counts_everything() {
    let mut r = request();
    r.cursor = Some(encode_cursor(1));
    let plan = plan_search(&r);
    assert_eq!(plan.count_sql, "SELECT COUNT(*) FROM games g ");
    assert_eq!(plan.count_bind_count, 0);
}

#[test]
fn search_sorting() {
    let mut r = request();
    r.sort = Some(s("name"));
    r.order = Some(s("asc"));
    assert!(plan_search(&r).data_sql.contains("ORDER BY g.name ASC NULLS LAST, g.id ASC"));
    r.sort = Some(s("rating_desc"));
    r.order = None;
    assert!(plan_search(&r).data_sql.contains("ORDER BY g.rating DESC NULLS LAST, g.id ASC"));
    r.sort = Some(s("bayes_rating"));
    assert!(plan_search(&r).data_sql.contains("ORDER BY g.bayes_rating DESC NULLS LAST"));
}

#[test]
fn search_page_cursors() {
    let mut r = request();
    r.limit = Some(2);
    let plan = plan_search(&r);
    let (meta, links) = search_page(&plan, &vec![1, 2], 7);
    assert_eq!(meta.total, 7);
    assert_eq!(meta.next_cursor, Some(encode_cursor(2)));
    assert_eq!(meta.prev_cursor, None);
    assert_eq!(links.self_link.href, "/v1/games/search");
    assert_eq!(
        links.next.unwrap().href,
        format!("/v1/games/search?cursor={}&limit=2", encode_cursor(2))
    );
    r.cursor = Some(encode_cursor(2));
    let plan = plan_search(&r);
    let (meta, links) = search_page(&plan, &vec![3], 7);
    assert_eq!(meta.next_cursor, None);
    assert_eq!(meta.prev_cursor, Some(encode_cursor(3)));
    assert!(links.next.is_none() && links.prev.is_none());
}

#[test]
fn search_count_is_the_same_on_every_page() {
    let mut r = request();
    r.themes = Some(vec![s("space")]);
    r.age_max = Some(12);
    let first = plan_search(&r);
    r.cursor = Some(encode_cursor(99));
    let later = plan_search(&r);
    assert_eq!(later.count_sql, first.count_sql);
    assert_eq!(later.count_bind_count, first.count_bind_count);
    assert_eq!(later.binds[..later.count_bind_count], first.binds[..first.count_bind_count]);
}

#[test]
fn every_value_is_bound_once() {
    let mut r = request();
    r.game_type = Some(vec![s("base_game"), s("expansion")]);
    r.players = Some(3);
    r.effective = Some(true);
    r.mechanics_all = Some(vec![s("worker-placement")]);
    r.playtime_experience = Some(s("learning"));
    r.playtime_min = Some(45);
    r.cursor = Some(encode_cursor(5));
    let plan = plan_search(&r);
    // 2 types + 5 player counts + 1 mechanic + level and minimum + cursor, then the limit
    assert_eq!(plan.binds.len(), 2 + 5 + 1 + 2 + 1 + 1);
    assert_eq!(plan.count_bind_count, 10);
}

#[test]
fn another_filter_adds_its_condition() {
    let mut r = request();
    r.min_rating_votes = Some(30);
    r.mode = Some(s("solo"));
    let before = plan_search(&r);
    assert_eq!(before.count_sql, "SELECT COUNT(*) FROM games g WHERE g.rating_votes >= $1 AND g.mode = $2");
    r.players_min = Some(2);
    let after = plan_search(&r);
    assert_eq!(
        after.count_sql,
        "SELECT COUNT(*) FROM games g WHERE g.rating_votes >= $1 AND g.max_players >= $2 AND g.mode = $3"
    );
    assert_eq!(
        after.binds[..after.count_bind_count],
        [BindValue::Int(30), BindValue::Int(2), BindValue::Str(s("solo"))]
    );
}
