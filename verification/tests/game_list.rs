use ott_demo_api::games::{
    expansions_page, game_links, list_games_page, page_in_order, plan_list_games, wants_expansions,
    GetGameParams, ListGamesParams, GAME_COLUMNS,
};
use ott_demo_api::ids::encode_cursor;

fn params() -> ListGamesParams {
    ListGamesParams {
        cursor: None,
        before: None,
        limit: None,
        players: None,
        players_min: None,
        players_max: None,
        weight_min: None,
        weight_max: None,
        game_type: None,
        mode: None,
        sort: None,
        order: None,
        effective: None,
        community_playtime_max: None,
    }
}

#[test]
fn default_plan() {
    let plan = plan_list_games(&params());
    assert_eq!(plan.limit, 25);
    assert!(!plan.is_backward);
    assert!(!plan.effective);
    assert_eq!(plan.count_sql, "SELECT COUNT(*) FROM games ");
    assert_eq!(
        plan.data_sql,
        format!("SELECT {} FROM games  ORDER BY id ASC LIMIT 25", GAME_COLUMNS)
    );
}

#[test]
fn limit_is_capped_at_one_hundred() {
    let mut p = params();
    p.limit = Some(500);
    assert_eq!(plan_list_games(&p).limit, 100);
    p.limit = Some(7);
    assert_eq!(plan_list_games(&p).limit, 7);
    p.limit = Some(-3);
    assert_eq!(plan_list_games(&p).limit, -3);
}

#[test]
fn filters_are_joined_with_and() {
    let mut p = params();
    p.players = Some(4);
    p.players_min = Some(2);
    p.weight_max = Some("3.5".to_string());
    p.game_type = Some("base_game".to_string());
    p.community_playtime_max = Some(90);
    let plan = plan_list_games(&p);
    let where_sql = "WHERE min_players <= 4 AND max_players >= 4 AND max_players >= 2 AND weight <= 3.5 AND type = 'base_game' AND community_median_playtime <= 90";
    assert_eq!(plan.count_sql, format!("SELECT COUNT(*) FROM games {}", where_sql));
    assert_eq!(
        plan.data_sql,
        format!("SELECT {} FROM games {} ORDER BY id ASC LIMIT 25", GAME_COLUMNS, where_sql)
    );
}

#[test]
fn quotes_are_doubled() {
    let mut p = params();
    p.mode = Some("co'op'".to_string());
    let plan = plan_list_games(&p);
    assert_eq!(plan.count_sql, "SELECT COUNT(*) FROM games WHERE mode = 'co''op'''");
}

#[test]
fn effective_players_condition() {
    let mut p = params();
    p.players = Some(6);
    p.effective = Some(true);
    let plan = plan_list_games(&p);
    assert!(plan.effective);
    let expected = "SELECT COUNT(*) FROM games WHERE ((min_players <= 6 AND max_players >= 6)\n                  OR id IN (\n                     SELECT base_game_id FROM expansion_combinations\n                     WHERE effective_min_players <= 6 AND effective_max_players >= 6\n                  )\n                  OR id IN (\n                     SELECT base_game_id FROM property_modifications\n                     GROUP BY base_game_id\n                     HAVING (SELECT g2.max_players FROM games g2 WHERE g2.id = base_game_id)\n                            + MAX(max_players_delta) >= 6\n                  ))";
    assert_eq!(plan.count_sql, expected);
}

#[test]
fn sort_and_order() {
    let mut p = params();
    p.sort = Some("weight".to_string());
    assert!(plan_list_games(&p).data_sql.ends_with("ORDER BY weight DESC NULLS LAST, id ASC LIMIT 25"));
    p.order = Some("asc".to_string());
    assert!(plan_list_games(&p).data_sql.ends_with("ORDER BY weight ASC NULLS LAST, id ASC LIMIT 25"));
    p.sort = Some("year".to_string());
    p.order = None;
    assert!(plan_list_games(&p)
        .data_sql
        .ends_with("ORDER BY year_published DESC NULLS LAST, id ASC LIMIT 25"));
    p.sort = Some("bogus".to_string());
    assert!(plan_list_games(&p).data_sql.ends_with("ORDER BY id ASC LIMIT 25"));
    p.order = Some("desc".to_string());
    assert!(plan_list_games(&p).data_sql.ends_with("ORDER BY id DESC LIMIT 25"));
}

#[test]
fn cursor_condition_and_count_without_it() {
    let mut p = params();
    p.players_max = Some(5);
    p.cursor = Some(encode_cursor(1));
    let plan = plan_list_games(&p);
    assert_eq!(plan.cursor_id, Some(1));
    assert_eq!(plan.count_sql, "SELECT COUNT(*) FROM games WHERE min_players <= 5");
    assert!(plan.data_sql.contains(
        "WHERE min_players <= 5 AND id > '00000000-0000-0000-0000-000000000001' ORDER BY id ASC LIMIT 25"
    ));
}

#[test]
fn backward_paging_reverses_the_query_order() {
    let mut p = params();
    p.before = Some(encode_cursor(9));
    let plan = plan_list_games(&p);
    assert!(plan.is_backward);
    assert!(plan.data_sql.ends_with(
        "WHERE id < '00000000-0000-0000-0000-000000000009' ORDER BY id DESC LIMIT 25"
    ));
    p.sort = Some("name".to_string());
    assert!(plan_list_games(&p)
        .data_sql
        .ends_with("ORDER BY name ASC NULLS FIRST, id DESC LIMIT 25"));
}

#[test]
fn cursor_follows_the_sort_order() {
    let mut p = params();
    p.sort = Some("name".to_string());
    p.cursor = Some(encode_cursor(1));
    let plan = plan_list_games(&p);
    let x = "'00000000-0000-0000-0000-000000000001'";
    let sel = format!("(SELECT k.name FROM games k WHERE k.id = {})", x);
    let cond = format!(
        "(CASE WHEN {sel} IS NULL THEN name IS NULL AND id > {x} ELSE name < {sel} OR (name = {sel} AND id > {x}) OR name IS NULL END)"
    );
    assert_eq!(
        plan.data_sql,
        format!(
            "SELECT {} FROM games WHERE {} ORDER BY name DESC NULLS LAST, id ASC LIMIT 25",
            GAME_COLUMNS, cond
        )
    );
    assert_eq!(plan.count_sql, "SELECT COUNT(*) FROM games ");
}

#[test]
fn before_cursor_follows_the_sort_order() {
    let mut p = params();
    p.sort = Some("weight".to_string());
    p.order = Some("asc".to_string());
    p.before = Some(encode_cursor(2));
    let plan = plan_list_games(&p);
    let x = "'00000000-0000-0000-0000-000000000002'";
    let sel = format!("(SELECT k.weight FROM games k WHERE k.id = {})", x);
    let cond = format!(
        "(CASE WHEN {sel} IS NULL THEN weight IS NOT NULL OR id < {x} ELSE weight < {sel} OR (weight = {sel} AND id < {x}) END)"
    );
    assert_eq!(
        plan.data_sql,
        format!(
            "SELECT {} FROM games WHERE {} ORDER BY weight DESC NULLS FIRST, id DESC LIMIT 25",
            GAME_COLUMNS, cond
        )
    );
}

#[test]
fn backward_page_is_put_back_in_order() {
    assert_eq!(page_in_order(vec![3, 2, 1], true), vec![1, 2, 3]);
    assert_eq!(page_in_order(vec![3, 2, 1], false), vec![3, 2, 1]);
    assert_eq!(page_in_order(Vec::<u8>::new(), true), Vec::<u8>::new());
}

#[test]
fn undecodable_cursor_is_ignored() {
    let mut p = params();
    p.cursor = Some("@@@".to_string());
    let plan = plan_list_games(&p);
    assert_eq!(plan.cursor_id, None);
    assert!(!plan.data_sql.contains("id >"));
}

#[test]
fn forward_page_links() {
    let mut p = params();
    p.limit = Some(2);
    let plan = plan_list_games(&p);
    let (meta, links) = list_games_page(&plan, &vec![3, 4], 10);
    assert_eq!(meta.total, 10);
    assert_eq!(meta.next_cursor, Some(encode_cursor(4)));
    assert_eq!(meta.prev_cursor, None);
    assert_eq!(links.self_link.href, "/v1/games");
    assert_eq!(
        links.next.unwrap().href,
        format!("/v1/games?cursor={}&limit=2", encode_cursor(4))
    );
    assert!(links.prev.is_none());

    // a short page has no next page
    let (meta, _) = list_games_page(&plan, &vec![3], 10);
    assert_eq!(meta.next_cursor, None);
}

#[test]
fn backward_page_links() {
    let mut p = params();
    p.limit = Some(2);
    p.before = Some(encode_cursor(9));
    let plan = plan_list_games(&p);
    let (meta, links) = list_games_page(&plan, &vec![5, 6], 10);
    assert_eq!(meta.next_cursor, Some(encode_cursor(6)));
    assert_eq!(meta.prev_cursor, Some(encode_cursor(5)));
    assert_eq!(
        links.prev.unwrap().href,
        format!("/v1/games?before={}&limit=2", encode_cursor(5))
    );
}

#[test]
fn single_game_links() {
    let l = game_links("spirit-island");
    assert_eq!(l.self_link.href, "/v1/games/spirit-island");
    assert_eq!(l.expansions.href, "/v1/games/spirit-island/expansions");
    assert_eq!(l.effective_properties.href, "/v1/games/spirit-island/effective-properties");
    assert_eq!(l.player_count_ratings.href, "/v1/games/spirit-island/player-count-ratings");
    assert_eq!(l.relationships.href, "/v1/games/spirit-island/relationships");
    assert_eq!(l.experience_playtime.href, "/v1/games/spirit-island/experience-playtime");
    assert!(l.self_link.title.is_none());
}

#[test]
fn expansions_are_embedded_on_request() {
    assert!(wants_expansions(&GetGameParams { embed: Some("expansions".to_string()) }));
    assert!(wants_expansions(&GetGameParams { embed: Some("credits,expansions".to_string()) }));
    assert!(!wants_expansions(&GetGameParams { embed: Some("credits".to_string()) }));
    assert!(!wants_expansions(&GetGameParams { embed: None }));
}

#[test]
fn expansion_list_is_one_page() {
    let (meta, links) = expansions_page("terraforming-mars", 4);
    assert_eq!(meta.total, 4);
    assert!(meta.next_cursor.is_none() && meta.prev_cursor.is_none());
    assert_eq!(links.self_link.href, "/v1/games/terraforming-mars/expansions");
    assert!(links.next.is_none() && links.prev.is_none());
}

#[test]
fn count_is_the_same_on_every_page() {
    let mut p = params();
    p.players_min = Some(2);
    p.mode = Some("solo".to_string());
    let first = plan_list_games(&p).count_sql;
    p.cursor = Some(encode_cursor(42));
    assert_eq!(plan_list_games(&p).count_sql, first);
    p.cursor = None;
    p.before = Some(encode_cursor(7));
    assert_eq!(plan_list_games(&p).count_sql, first);
}
