//! Game listing and lookup: the query plan of the keyset-paginated game
//! list, its page cursors and links, and the links of a single game.

use crate::ids::{cursor_text, cursor_value, decode_cursor, encode_cursor, uuid_text, uuid_to_text};
use crate::keyset::{key_of_row, keyset_condition, keyset_text};
use crate::models::{game_link, game_path, is_link_to, link_to, Link, PaginationLinks, PaginationMeta};
use crate::text::{
    append_i64, cat, cat3, chars_of, contains, int_text, join, join_strings, opt_text_is, opt_view,
    push_char, push_text, seq_contains, views,
};
use vstd::prelude::*;

verus! {

/// The columns selected for a game, in the order the game record reads them.
pub const GAME_COLUMNS: &'static str = "id, slug, name, type, sort_name, parent_game_id, year_published,\n     description, description_short, min_players, max_players,\n     min_playtime, max_playtime,\n     community_min_playtime, community_max_playtime,\n     community_median_playtime, min_age, community_suggested_age,\n     rating::FLOAT8, bayes_rating::FLOAT8, rating_votes,\n     rating_stddev::FLOAT8, rating_confidence::FLOAT8, rating_distribution,\n     weight::FLOAT8, weight_votes, rank_overall,\n     owner_count, wishlist_count, total_plays, mode, funding_source,\n     language_dependence, image_url, thumbnail_url, bgg_id, status,\n     top_player_counts, recommended_player_counts, created_at, updated_at";

/// Query parameters of the game list. The weight bounds arrive as the
/// decimal text of the requested numbers.
pub struct ListGamesParams {
    pub cursor: Option<String>,
    pub before: Option<String>,
    pub limit: Option<i64>,
    pub players: Option<i32>,
    pub players_min: Option<i32>,
    pub players_max: Option<i32>,
    pub weight_min: Option<String>,
    pub weight_max: Option<String>,
    pub game_type: Option<String>,
    pub mode: Option<String>,
    pub sort: Option<String>,
    pub order: Option<String>,
    pub effective: Option<bool>,
    pub community_playtime_max: Option<i32>,
}

/// What the game list asks of the database, and what it needs afterwards.
pub struct ListGamesPlan {
    pub limit: i64,
    pub cursor_id: Option<u128>,
    pub before_id: Option<u128>,
    pub is_backward: bool,
    pub effective: bool,
    pub count_sql: String,
    pub data_sql: String,
}

/// The page size: the requested limit (or `default`), capped at `cap`.
pub open spec fn capped_limit(limit: Option<i64>, default: i64, cap: i64) -> i64 {
    let l = match limit {
        Some(v) => v,
        None => default,
    };
    if l <= cap {
        l
    } else {
        cap
    }
}

/// The game id named by an optional cursor.
pub open spec fn opt_cursor_value(c: Option<String>) -> Option<u128> {
    match c {
        Some(s) => cursor_value(s@),
        None => None,
    }
}

/// The text with every single quote doubled, as SQL string literals need.
pub open spec fn sql_escape(s: Seq<char>) -> Seq<char>
    decreases s.len(),
{
    if s.len() == 0 {
        seq![]
    } else {
        sql_escape(s.drop_last()) + if s.last() == '\'' {
            seq!['\'', '\'']
        } else {
            seq![s.last()]
        }
    }
}

/// The condition of an integer bound.
pub open spec fn int_condition(v: Option<i32>, prefix: Seq<char>) -> Seq<Seq<char>> {
    match v {
        Some(x) => seq![prefix + int_text(x as int)],
        None => seq![],
    }
}

/// The condition of a bound given as text.
pub open spec fn text_condition(v: Option<String>, prefix: Seq<char>) -> Seq<Seq<char>> {
    match v {
        Some(t) => seq![prefix + t@],
        None => seq![],
    }
}

/// The condition comparing a column with a quoted SQL string literal.
pub open spec fn quoted_condition(v: Option<String>, prefix: Seq<char>) -> Seq<Seq<char>> {
    match v {
        Some(t) => seq![prefix + sql_escape(t@) + "'"@],
        None => seq![],
    }
}

/// The player-count condition: base range only, or (effective mode) the
/// base range, an expansion combination's range, or the base maximum plus
/// the largest expansion delta.
pub open spec fn list_players_condition(p: i32, effective: bool) -> Seq<char> {
    let t = int_text(p as int);
    if effective {
        "((min_players <= "@ + t + " AND max_players >= "@ + t
            + ")\n                  OR id IN (\n                     SELECT base_game_id FROM expansion_combinations\n                     WHERE effective_min_players <= "@
            + t + " AND effective_max_players >= "@ + t
            + "\n                  )\n                  OR id IN (\n                     SELECT base_game_id FROM property_modifications\n                     GROUP BY base_game_id\n                     HAVING (SELECT g2.max_players FROM games g2 WHERE g2.id = base_game_id)\n                            + MAX(max_players_delta) >= "@
            + t + "\n                  ))"@
    } else {
        "min_players <= "@ + t + " AND max_players >= "@ + t
    }
}

/// Whether effective mode is on.
pub open spec fn list_effective(p: ListGamesParams) -> bool {
    match p.effective {
        Some(b) => b,
        None => false,
    }
}

/// The filter conditions of the game list, in order.
pub open spec fn list_filters(p: ListGamesParams) -> Seq<Seq<char>> {
    let players = match p.players {
        Some(x) => seq![list_players_condition(x, list_effective(p))],
        None => seq![],
    };
    players + int_condition(p.players_min, "max_players >= "@) + int_condition(
        p.players_max,
        "min_players <= "@,
    ) + text_condition(p.weight_min, "weight >= "@) + text_condition(p.weight_max, "weight <= "@)
        + quoted_condition(p.game_type, "type = '"@) + quoted_condition(p.mode, "mode = '"@)
        + int_condition(p.community_playtime_max, "community_median_playtime <= "@)
}

/// A game id as an SQL literal.
pub open spec fn id_literal(id: u128) -> Seq<char> {
    "'"@ + uuid_text(id) + "'"@
}

/// The keyset condition of an optional cursor: the rows after (or before)
/// the cursor's game in the list order.
pub open spec fn list_keyset_condition(p: ListGamesParams, c: Option<u128>, after: bool) -> Seq<Seq<char>> {
    let key = list_sort_column(p.sort);
    match c {
        Some(id) => seq![
            keyset_text(
                key,
                "id"@,
                key_of_row(key, id_literal(id)),
                id_literal(id),
                list_ascending(p),
                after,
                list_sort_is_default(p.sort),
            ),
        ],
        None => seq![],
    }
}

/// The conditions of the page query: the filters, then the keyset position
/// after the `cursor` game and before the `before` game.
pub open spec fn list_conditions(p: ListGamesParams) -> Seq<Seq<char>> {
    list_filters(p) + list_keyset_condition(p, opt_cursor_value(p.cursor), true)
        + list_keyset_condition(p, opt_cursor_value(p.before), false)
}

/// `WHERE` followed by the conditions joined with `AND`, or nothing.
pub open spec fn where_clause(conds: Seq<Seq<char>>) -> Seq<char> {
    if conds.len() == 0 {
        seq![]
    } else {
        "WHERE "@ + join(conds, " AND "@)
    }
}

/// The list is ordered by its default column (the id).
pub open spec fn list_sort_is_default(sort: Option<String>) -> bool {
    match sort {
        Some(s) => !(s@ == "bayes_rating"@ || s@ == "weight"@ || s@ == "year"@ || s@ == "name"@),
        None => true,
    }
}

/// The column the list is ordered by.
pub open spec fn list_sort_column(sort: Option<String>) -> Seq<char> {
    match sort {
        Some(s) => if s@ == "bayes_rating"@ {
            "bayes_rating"@
        } else if s@ == "weight"@ {
            "weight"@
        } else if s@ == "year"@ {
            "year_published"@
        } else if s@ == "name"@ {
            "name"@
        } else {
            "id"@
        },
        None => "id"@,
    }
}

/// The requested direction is ascending.
pub open spec fn list_ascending(p: ListGamesParams) -> bool {
    match p.order {
        Some(o) => if o@ == "asc"@ {
            true
        } else if o@ == "desc"@ {
            false
        } else {
            list_sort_is_default(p.sort)
        },
        None => list_sort_is_default(p.sort),
    }
}

/// Paging backwards: a `before` cursor without an `after` cursor.
pub open spec fn list_is_backward(p: ListGamesParams) -> bool {
    opt_cursor_value(p.before) is Some && opt_cursor_value(p.cursor) is None
}

/// The `ORDER BY` terms of the page query: the sort column in the requested
/// direction with missing values last and then the id ascending (or the id
/// alone); when paging backwards the exact reverse of that order (the page
/// is put back in order after the fetch).
pub open spec fn list_query_order(p: ListGamesParams) -> Seq<char> {
    let forward = list_ascending(p) != list_is_backward(p);
    let dir = if forward {
        "ASC"@
    } else {
        "DESC"@
    };
    if list_sort_is_default(p.sort) {
        "id "@ + dir
    } else {
        list_sort_column(p.sort) + " "@ + dir + if list_is_backward(p) {
            " NULLS FIRST, id DESC"@
        } else {
            " NULLS LAST, id ASC"@
        }
    }
}

/// The page query of the game list.
pub open spec fn list_data_sql(p: ListGamesParams) -> Seq<char> {
    "SELECT "@ + GAME_COLUMNS@ + " FROM games "@ + where_clause(list_conditions(p))
        + " ORDER BY "@ + list_query_order(p) + " LIMIT "@ + int_text(
        capped_limit(p.limit, 25, 100) as int,
    )
}

/// The count query of the game list: the filters, without the keyset position.
pub open spec fn list_count_sql(p: ListGamesParams) -> Seq<char> {
    "SELECT COUNT(*) FROM games "@ + where_clause(list_filters(p))
}

/// Escapes single quotes for an SQL string literal.
pub fn escape_sql_text(s: &str) -> (res: String)
    ensures
        res@ == sql_escape(s@),
{
    let v = chars_of(s);
    let mut res = String::new();
    let mut i: usize = 0;
    while i < v.len()
        invariant
            v@ == s@,
            i <= v@.len(),
            res@ == sql_escape(s@.take(i as int)),
        decreases v.len() - i,
    {
        let c = v[i];
        if c == '\'' {
            push_char(&mut res, '\'');
            push_char(&mut res, '\'');
        } else {
            push_char(&mut res, c);
        }
        assert(s@.take(i + 1).drop_last() =~= s@.take(i as int));
        assert(res@ =~= sql_escape(s@.take(i + 1)));
        i = i + 1;
    }
    assert(s@.take(v@.len() as int) =~= s@);
    res
}

fn push_int_condition(conds: &mut Vec<String>, v: Option<i32>, prefix: &str)
    ensures
        views(final(conds)@) == views(old(conds)@) + int_condition(v, prefix@),
{
    match v {
        Some(x) => {
            let mut c = String::from_str(prefix);
            append_i64(&mut c, x as i64);
            push_text(conds, c);
        },
        None => {},
    }
    assert(views(conds@) =~= views(old(conds)@) + int_condition(v, prefix@));
}

fn push_text_condition(conds: &mut Vec<String>, v: &Option<String>, prefix: &str)
    ensures
        views(final(conds)@) == views(old(conds)@) + text_condition(*v, prefix@),
{
    match v {
        Some(t) => {
            push_text(conds, cat(prefix, t.as_str()));
        },
        None => {},
    }
    assert(views(conds@) =~= views(old(conds)@) + text_condition(*v, prefix@));
}

fn push_quoted_condition(conds: &mut Vec<String>, v: &Option<String>, prefix: &str)
    ensures
        views(final(conds)@) == views(old(conds)@) + quoted_condition(*v, prefix@),
{
    match v {
        Some(t) => {
            let mut c = String::from_str(prefix);
            let e = escape_sql_text(t.as_str());
            c.append(e.as_str());
            c.append("'");
            push_text(conds, c);
        },
        None => {},
    }
    assert(views(conds@) =~= views(old(conds)@) + quoted_condition(*v, prefix@));
}

fn players_condition_text(p: i32, effective: bool) -> (c: String)
    ensures
        c@ == list_players_condition(p, effective),
{
    let mut c = String::new();
    if effective {
        c.append("((min_players <= ");
        append_i64(&mut c, p as i64);
        c.append(" AND max_players >= ");
        append_i64(&mut c, p as i64);
        c.append(
            ")\n                  OR id IN (\n                     SELECT base_game_id FROM expansion_combinations\n                     WHERE effective_min_players <= ",
        );
        append_i64(&mut c, p as i64);
        c.append(" AND effective_max_players >= ");
        append_i64(&mut c, p as i64);
        c.append(
            "\n                  )\n                  OR id IN (\n                     SELECT base_game_id FROM property_modifications\n                     GROUP BY base_game_id\n                     HAVING (SELECT g2.max_players FROM games g2 WHERE g2.id = base_game_id)\n                            + MAX(max_players_delta) >= ",
        );
        append_i64(&mut c, p as i64);
        c.append("\n                  ))");
    } else {
        c.append("min_players <= ");
        append_i64(&mut c, p as i64);
        c.append(" AND max_players >= ");
        append_i64(&mut c, p as i64);
    }
    assert(c@ =~= list_players_condition(p, effective));
    c
}

/// Renders a `WHERE` clause of the conditions (nothing when there are none).
pub fn where_text(conds: &Vec<String>) -> (res: String)
    ensures
        res@ == where_clause(views(conds@)),
{
    if conds.len() == 0 {
        String::new()
    } else {
        let j = join_strings(conds, " AND ");
        cat("WHERE ", j.as_str())
    }
}

/// The page size of a list (the requested limit or `default`, capped at `cap`).
pub fn cap_limit(limit: Option<i64>, default: i64, cap: i64) -> (res: i64)
    ensures
        res == capped_limit(limit, default, cap),
{
    let l = match limit {
        Some(v) => v,
        None => default,
    };
    if l <= cap {
        l
    } else {
        cap
    }
}

/// Decodes an optional cursor.
pub fn decode_opt_cursor(c: &Option<String>) -> (res: Option<u128>)
    ensures
        res == opt_cursor_value(*c),
{
    match c {
        Some(s) => decode_cursor(s.as_str()),
        None => None,
    }
}

fn push_keyset_condition(
    conds: &mut Vec<String>,
    p: &ListGamesParams,
    c: Option<u128>,
    after: bool,
    key: &str,
    ascending: bool,
    by_id: bool,
)
    requires
        key@ == list_sort_column(p.sort),
        ascending == list_ascending(*p),
        by_id == list_sort_is_default(p.sort),
    ensures
        views(final(conds)@) == views(old(conds)@) + list_keyset_condition(*p, c, after),
{
    if let Some(id) = c {
        let x = cat3("'", uuid_to_text(id).as_str(), "'");
        push_text(conds, keyset_condition(key, "id", key, x.as_str(), ascending, after, by_id));
    }
    assert(views(conds@) =~= views(old(conds)@) + list_keyset_condition(*p, c, after));
}

/// Plans the game list: page size, keyset position, filter conditions,
/// ordering, and the count and page queries. The keyset position follows
/// the list order (see `keyset::lemma_keyset_pages_continue`).
pub fn plan_list_games(p: &ListGamesParams) -> (plan: ListGamesPlan)
    ensures
        plan.limit == capped_limit(p.limit, 25, 100),
        plan.limit <= 100,
        plan.cursor_id == opt_cursor_value(p.cursor),
        plan.before_id == opt_cursor_value(p.before),
        plan.is_backward == list_is_backward(*p),
        plan.effective == list_effective(*p),
        plan.data_sql@ == list_data_sql(*p),
        plan.count_sql@ == list_count_sql(*p),
{
    let limit = cap_limit(p.limit, 25, 100);
    let cursor_id = decode_opt_cursor(&p.cursor);
    let before_id = decode_opt_cursor(&p.before);
    let is_backward = before_id.is_some() && cursor_id.is_none();
    let effective = match p.effective {
        Some(b) => b,
        None => false,
    };

    let mut conds: Vec<String> = Vec::new();
    match p.players {
        Some(x) => {
            push_text(&mut conds, players_condition_text(x, effective));
        },
        None => {},
    }
    push_int_condition(&mut conds, p.players_min, "max_players >= ");
    push_int_condition(&mut conds, p.players_max, "min_players <= ");
    push_text_condition(&mut conds, &p.weight_min, "weight >= ");
    push_text_condition(&mut conds, &p.weight_max, "weight <= ");
    push_quoted_condition(&mut conds, &p.game_type, "type = '");
    push_quoted_condition(&mut conds, &p.mode, "mode = '");
    push_int_condition(&mut conds, p.community_playtime_max, "community_median_playtime <= ");
    assert(views(conds@) =~= list_filters(*p));
    let count_where = where_text(&conds);

    let sort_default = !(opt_text_is(&p.sort, "bayes_rating") || opt_text_is(&p.sort, "weight")
        || opt_text_is(&p.sort, "year") || opt_text_is(&p.sort, "name"));
    let sort_col: &str = if opt_text_is(&p.sort, "bayes_rating") {
        "bayes_rating"
    } else if opt_text_is(&p.sort, "weight") {
        "weight"
    } else if opt_text_is(&p.sort, "year") {
        "year_published"
    } else if opt_text_is(&p.sort, "name") {
        "name"
    } else {
        "id"
    };
    let asc_requested = opt_text_is(&p.order, "asc");
    let desc_requested = opt_text_is(&p.order, "desc");
    let ascending = if asc_requested {
        true
    } else if desc_requested {
        false
    } else {
        sort_default
    };
    assert(sort_col@ == list_sort_column(p.sort));
    assert(ascending == list_ascending(*p));

    push_keyset_condition(&mut conds, p, cursor_id, true, sort_col, ascending, sort_default);
    push_keyset_condition(&mut conds, p, before_id, false, sort_col, ascending, sort_default);
    assert(views(conds@) =~= list_conditions(*p));
    let where_sql = where_text(&conds);

    let forward = ascending != is_backward;
    let dir: &str = if forward {
        "ASC"
    } else {
        "DESC"
    };
    let order = if sort_default {
        cat("id ", dir)
    } else {
        let mut o = cat3(sort_col, " ", dir);
        o.append(if is_backward { " NULLS FIRST, id DESC" } else { " NULLS LAST, id ASC" });
        o
    };
    assert(order@ =~= list_query_order(*p));

    let count_sql = cat("SELECT COUNT(*) FROM games ", count_where.as_str());

    let mut data_sql = String::from_str("SELECT ");
    data_sql.append(GAME_COLUMNS);
    data_sql.append(" FROM games ");
    data_sql.append(where_sql.as_str());
    data_sql.append(" ORDER BY ");
    data_sql.append(order.as_str());
    data_sql.append(" LIMIT ");
    append_i64(&mut data_sql, limit);
    assert(data_sql@ =~= list_data_sql(*p));

    ListGamesPlan { limit, cursor_id, before_id, is_backward, effective, count_sql, data_sql }
}

/// Puts a fetched page in list order: a page fetched backwards arrives in
/// reverse order.
pub fn page_in_order<T>(rows: Vec<T>, backward: bool) -> (res: Vec<T>)
    ensures
        res@ == if backward {
            rows@.reverse()
        } else {
            rows@
        },
{
    if !backward {
        return rows;
    }
    let ghost original = rows@;
    let mut rest = rows;
    let mut res: Vec<T> = Vec::new();
    while rest.len() > 0
        invariant
            original.len() == rest@.len() + res@.len(),
            rest@ == original.take(rest@.len() as int),
            res@ == original.skip(rest@.len() as int).reverse(),
        decreases rest.len(),
    {
        let ghost n = rest@.len();
        let x = rest.pop().unwrap();
        res.push(x);
        assert(rest@ =~= original.take(n - 1));
        assert(res@ =~= original.skip(n - 1).reverse());
    }
    assert(original.skip(0) =~= original);
    res
}

/// The cursor of the first id of a page, if the page is not empty.
pub open spec fn first_cursor(ids: Seq<u128>) -> Option<Seq<char>> {
    if ids.len() > 0 {
        Some(cursor_text(ids[0]))
    } else {
        None
    }
}

/// The cursor of the last id of a page, if the page is not empty.
pub open spec fn last_cursor(ids: Seq<u128>) -> Option<Seq<char>> {
    if ids.len() > 0 {
        Some(cursor_text(ids.last()))
    } else {
        None
    }
}

/// The page holds as many games as were asked for.
pub open spec fn is_full_page(ids: Seq<u128>, limit: i64) -> bool {
    ids.len() == limit
}

/// The `next` cursor of a game-list page: after the last game, when paging
/// forward and the page is full, or when paging backward from a cursor.
pub open spec fn list_next_cursor(plan: ListGamesPlan, ids: Seq<u128>) -> Option<Seq<char>> {
    let has_cursor = plan.cursor_id is Some || plan.before_id is Some;
    if (plan.is_backward && has_cursor) || (!plan.is_backward && is_full_page(ids, plan.limit)) {
        last_cursor(ids)
    } else {
        None
    }
}

/// The `prev` cursor of a game-list page: before the first game, when paging
/// backward and the page is full, or when paging forward from a cursor.
pub open spec fn list_prev_cursor(plan: ListGamesPlan, ids: Seq<u128>) -> Option<Seq<char>> {
    let has_cursor = plan.cursor_id is Some || plan.before_id is Some;
    if (plan.is_backward && is_full_page(ids, plan.limit)) || (!plan.is_backward && has_cursor) {
        first_cursor(ids)
    } else {
        None
    }
}

/// The path of a page link: `path`, the cursor, `&limit=` and the limit.
pub open spec fn page_href(path: Seq<char>, cursor: Seq<char>, limit: i64) -> Seq<char> {
    path + cursor + "&limit="@ + int_text(limit as int)
}

/// `l` links to the page that the optional cursor names.
pub open spec fn is_page_link(l: Option<Link>, path: Seq<char>, c: Option<Seq<char>>, limit: i64) -> bool {
    match c {
        Some(t) => l is Some && is_link_to(l.unwrap(), page_href(path, t, limit)),
        None => l is None,
    }
}

/// The cursor of the first game of a page.
pub fn cursor_of_first(ids: &Vec<u128>) -> (res: Option<String>)
    ensures
        opt_view(res) == first_cursor(ids@),
{
    if ids.len() > 0 {
        Some(encode_cursor(ids[0]))
    } else {
        None
    }
}

/// The cursor of the last game of a page.
pub fn cursor_of_last(ids: &Vec<u128>) -> (res: Option<String>)
    ensures
        opt_view(res) == last_cursor(ids@),
{
    if ids.len() > 0 {
        Some(encode_cursor(ids[ids.len() - 1]))
    } else {
        None
    }
}

/// The link to the page that the optional cursor names.
pub fn page_link(path: &str, c: &Option<String>, limit: i64) -> (l: Option<Link>)
    ensures
        is_page_link(l, path@, opt_view(*c), limit),
{
    match c {
        Some(t) => {
            let mut href = cat(path, t.as_str());
            href.append("&limit=");
            append_i64(&mut href, limit);
            Some(link_to(href))
        },
        None => None,
    }
}

/// Whether a page holds exactly `limit` games.
pub fn full_page(ids: &Vec<u128>, limit: i64) -> (b: bool)
    ensures
        b == is_full_page(ids@, limit),
{
    limit >= 0 && ids.len() as u64 == limit as u64
}

/// The pagination metadata and links of a game-list page, given the ids of
/// the page's games in the order they are returned and the filtered total.
pub fn list_games_page(plan: &ListGamesPlan, ids: &Vec<u128>, total: i64) -> (res: (
    PaginationMeta,
    PaginationLinks,
))
    ensures
        res.0.total == total,
        opt_view(res.0.next_cursor) == list_next_cursor(*plan, ids@),
        opt_view(res.0.prev_cursor) == list_prev_cursor(*plan, ids@),
        is_link_to(res.1.self_link, "/v1/games"@),
        is_page_link(res.1.next, "/v1/games?cursor="@, list_next_cursor(*plan, ids@), plan.limit),
        is_page_link(res.1.prev, "/v1/games?before="@, list_prev_cursor(*plan, ids@), plan.limit),
{
    let has_full_page = full_page(ids, plan.limit);
    let has_cursor = plan.cursor_id.is_some() || plan.before_id.is_some();
    let next_cursor = if (plan.is_backward && has_cursor) || (!plan.is_backward && has_full_page) {
        cursor_of_last(ids)
    } else {
        None
    };
    let prev_cursor = if (plan.is_backward && has_full_page) || (!plan.is_backward && has_cursor) {
        cursor_of_first(ids)
    } else {
        None
    };
    let next = page_link("/v1/games?cursor=", &next_cursor, plan.limit);
    let prev = page_link("/v1/games?before=", &prev_cursor, plan.limit);
    let meta = PaginationMeta { total, next_cursor, prev_cursor };
    let links = PaginationLinks { self_link: link_to(String::from_str("/v1/games")), next, prev };
    (meta, links)
}

/// The cursors of a game-list page. Paging forward, `next` names the last
/// game of a full page (a shorter page is the last one), and `prev` names
/// the first game whenever the page was reached through a cursor (the first
/// page has none). Paging backward, `next` names the last game, and `prev`
/// names the first game of a full page (a shorter page is the first one).
/// An empty page has neither.
pub proof fn lemma_list_page_cursors(plan: ListGamesPlan, ids: Seq<u128>)
    ensures
        !plan.is_backward && plan.cursor_id is Some && ids.len() > 0 ==> list_prev_cursor(plan, ids)
            == Some(cursor_text(ids[0])),
        !plan.is_backward && plan.cursor_id is None && plan.before_id is None ==> list_prev_cursor(
            plan,
            ids,
        ) is None,
        !plan.is_backward && ids.len() == plan.limit && ids.len() > 0 ==> list_next_cursor(plan, ids)
            == Some(cursor_text(ids[ids.len() - 1])),
        !plan.is_backward && ids.len() != plan.limit ==> list_next_cursor(plan, ids) is None,
        plan.is_backward && (plan.cursor_id is Some || plan.before_id is Some) && ids.len() > 0
            ==> list_next_cursor(plan, ids) == Some(cursor_text(ids[ids.len() - 1])),
        plan.is_backward && ids.len() == plan.limit && ids.len() > 0 ==> list_prev_cursor(plan, ids)
            == Some(cursor_text(ids[0])),
        plan.is_backward && ids.len() != plan.limit ==> list_prev_cursor(plan, ids) is None,
        ids.len() == 0 ==> list_prev_cursor(plan, ids) is None && list_next_cursor(plan, ids) is None,
{
}

/// Query parameters of a single-game lookup.
pub struct GetGameParams {
    pub embed: Option<String>,
}

/// The links of a single game.
pub struct GameLinks {
    pub self_link: Link,
    pub expansions: Link,
    pub effective_properties: Link,
    pub player_count_ratings: Link,
    pub relationships: Link,
    pub experience_playtime: Link,
}

/// The lookup asks for the game's expansions to be included.
pub open spec fn includes_expansions(p: GetGameParams) -> bool {
    p.embed is Some && seq_contains(p.embed.unwrap()@, "expansions"@)
}

/// Whether the lookup asks for the game's expansions to be included.
pub fn wants_expansions(p: &GetGameParams) -> (b: bool)
    ensures
        b == includes_expansions(*p),
{
    match &p.embed {
        Some(i) => contains(i.as_str(), "expansions"),
        None => false,
    }
}

/// The links of the game with this slug: itself and its sub-resources.
pub fn game_links(slug: &str) -> (l: GameLinks)
    ensures
        is_link_to(l.self_link, game_path(slug@)),
        is_link_to(l.expansions, game_path(slug@) + "/expansions"@),
        is_link_to(l.effective_properties, game_path(slug@) + "/effective-properties"@),
        is_link_to(l.player_count_ratings, game_path(slug@) + "/player-count-ratings"@),
        is_link_to(l.relationships, game_path(slug@) + "/relationships"@),
        is_link_to(l.experience_playtime, game_path(slug@) + "/experience-playtime"@),
{
    let self_link = link_to(cat("/v1/games/", slug));
    GameLinks {
        self_link,
        expansions: game_link(slug, "/expansions"),
        effective_properties: game_link(slug, "/effective-properties"),
        player_count_ratings: game_link(slug, "/player-count-ratings"),
        relationships: game_link(slug, "/relationships"),
        experience_playtime: game_link(slug, "/experience-playtime"),
    }
}

/// The pagination metadata and links of a base game's expansion list:
/// one page holding all `count` expansions.
pub fn expansions_page(id_or_slug: &str, count: usize) -> (res: (PaginationMeta, PaginationLinks))
    requires
        count <= i64::MAX,
    ensures
        res.0.total == count,
        res.0.next_cursor is None,
        res.0.prev_cursor is None,
        is_link_to(res.1.self_link, game_path(id_or_slug@) + "/expansions"@),
        res.1.next is None,
        res.1.prev is None,
{
    (
        PaginationMeta { total: count as i64, next_cursor: None, prev_cursor: None },
        PaginationLinks { self_link: game_link(id_or_slug, "/expansions"), next: None, prev: None },
    )
}

/// The text with every doubled single quote read back as one.
pub open spec fn sql_unescape(s: Seq<char>) -> Seq<char>
    decreases s.len(),
{
    if s.len() >= 2 && s.last() == '\'' && s[s.len() - 2] == '\'' {
        sql_unescape(s.subrange(0, s.len() - 2)).push('\'')
    } else if s.len() > 0 {
        sql_unescape(s.drop_last()).push(s.last())
    } else {
        seq![]
    }
}

/// Quote escaping loses nothing: reading the doubled quotes back as single
/// ones gives back the escaped text.
pub proof fn lemma_escape_lossless(s: Seq<char>)
    ensures
        sql_unescape(sql_escape(s)) == s,
    decreases s.len(),
{
    if s.len() > 0 {
        lemma_escape_lossless(s.drop_last());
        let e = sql_escape(s.drop_last());
        if s.last() == '\'' {
            let t = e + seq!['\'', '\''];
            assert(t.subrange(0, t.len() - 2) =~= e);
            assert(sql_unescape(t) == sql_unescape(e).push('\''));
        } else {
            let t = e + seq![s.last()];
            assert(t.drop_last() =~= e);
            assert(sql_unescape(t) == sql_unescape(e).push(s.last()));
        }
        assert(s.drop_last().push(s.last()) =~= s);
    }
}

/// The game list with the same filter but no keyset position.
pub open spec fn without_position(p: ListGamesParams) -> ListGamesParams {
    ListGamesParams { cursor: None, before: None, ..p }
}

/// The page size never exceeds the cap; a requested size within the cap is
/// used as asked, a larger one is cut to the cap, and without a request the
/// default (within the cap) applies.
pub proof fn lemma_page_size(limit: Option<i64>, default: i64, cap: i64)
    requires
        default <= cap,
    ensures
        capped_limit(limit, default, cap) <= cap,
        limit is Some && limit.unwrap() <= cap ==> capped_limit(limit, default, cap) == limit.unwrap(),
        limit is Some && limit.unwrap() > cap ==> capped_limit(limit, default, cap) == cap,
        limit is None ==> capped_limit(limit, default, cap) == default,
{
}

/// The total reported with a game-list page does not depend on the page:
/// the count query is the same with or without cursors.
pub proof fn lemma_count_ignores_position(p: ListGamesParams)
    ensures
        list_count_sql(p) == list_count_sql(without_position(p)),
{
    assert(list_filters(p) == list_filters(without_position(p)));
}

proof fn lemma_list_players_condition(p: ListGamesParams)
    requires
        p.players is Some,
        !list_effective(p),
    ensures
        list_filters(p).contains("min_players <= "@ + int_text(p.players.unwrap() as int) + " AND max_players >= "@ + int_text(p.players.unwrap() as int)),
{
    let players = match p.players {
        Some(x) => seq![list_players_condition(x, list_effective(p))],
        None => seq![],
    };
    assert(list_filters(p)[0] == "min_players <= "@ + int_text(p.players.unwrap() as int) + " AND max_players >= "@ + int_text(p.players.unwrap() as int));
}

proof fn lemma_list_players_min_condition(p: ListGamesParams)
    requires
        p.players_min is Some,
    ensures
        list_filters(p).contains("max_players >= "@ + int_text(p.players_min.unwrap() as int)),
{
    let players = match p.players {
        Some(x) => seq![list_players_condition(x, list_effective(p))],
        None => seq![],
    };
    let pre = players;
    assert(list_filters(p)[pre.len() as int] == "max_players >= "@ + int_text(p.players_min.unwrap() as int));
}

proof fn lemma_list_players_max_condition(p: ListGamesParams)
    requires
        p.players_max is Some,
    ensures
        list_filters(p).contains("min_players <= "@ + int_text(p.players_max.unwrap() as int)),
{
    let players = match p.players {
        Some(x) => seq![list_players_condition(x, list_effective(p))],
        None => seq![],
    };
    let pre = players + int_condition(p.players_min, "max_players >= "@);
    assert(list_filters(p)[pre.len() as int] == "min_players <= "@ + int_text(p.players_max.unwrap() as int));
}

proof fn lemma_list_weight_min_condition(p: ListGamesParams)
    requires
        p.weight_min is Some,
    ensures
        list_filters(p).contains("weight >= "@ + p.weight_min.unwrap()@),
{
    let players = match p.players {
        Some(x) => seq![list_players_condition(x, list_effective(p))],
        None => seq![],
    };
    let pre = players + int_condition(p.players_min, "max_players >= "@) + int_condition(p.players_max, "min_players <= "@);
    assert(list_filters(p)[pre.len() as int] == "weight >= "@ + p.weight_min.unwrap()@);
}

proof fn lemma_list_weight_max_condition(p: ListGamesParams)
    requires
        p.weight_max is Some,
    ensures
        list_filters(p).contains("weight <= "@ + p.weight_max.unwrap()@),
{
    let players = match p.players {
        Some(x) => seq![list_players_condition(x, list_effective(p))],
        None => seq![],
    };
    let pre = players + int_condition(p.players_min, "max_players >= "@) + int_condition(p.players_max, "min_players <= "@) + text_condition(p.weight_min, "weight >= "@);
    assert(list_filters(p)[pre.len() as int] == "weight <= "@ + p.weight_max.unwrap()@);
}

proof fn lemma_list_game_type_condition(p: ListGamesParams)
    requires
        p.game_type is Some,
    ensures
        list_filters(p).contains("type = '"@ + sql_escape(p.game_type.unwrap()@) + "'"@),
{
    let players = match p.players {
        Some(x) => seq![list_players_condition(x, list_effective(p))],
        None => seq![],
    };
    let pre = players + int_condition(p.players_min, "max_players >= "@) + int_condition(p.players_max, "min_players <= "@) + text_condition(p.weight_min, "weight >= "@) + text_condition(p.weight_max, "weight <= "@);
    assert(list_filters(p)[pre.len() as int] == "type = '"@ + sql_escape(p.game_type.unwrap()@) + "'"@);
}

proof fn lemma_list_mode_condition(p: ListGamesParams)
    requires
        p.mode is Some,
    ensures
        list_filters(p).contains("mode = '"@ + sql_escape(p.mode.unwrap()@) + "'"@),
{
    let players = match p.players {
        Some(x) => seq![list_players_condition(x, list_effective(p))],
        None => seq![],
    };
    let pre = players + int_condition(p.players_min, "max_players >= "@) + int_condition(p.players_max, "min_players <= "@) + text_condition(p.weight_min, "weight >= "@) + text_condition(p.weight_max, "weight <= "@) + quoted_condition(p.game_type, "type = '"@);
    assert(list_filters(p)[pre.len() as int] == "mode = '"@ + sql_escape(p.mode.unwrap()@) + "'"@);
}

proof fn lemma_list_community_playtime_max_condition(p: ListGamesParams)
    requires
        p.community_playtime_max is Some,
    ensures
        list_filters(p).contains("community_median_playtime <= "@ + int_text(p.community_playtime_max.unwrap() as int)),
{
    let players = match p.players {
        Some(x) => seq![list_players_condition(x, list_effective(p))],
        None => seq![],
    };
    let pre = players + int_condition(p.players_min, "max_players >= "@) + int_condition(p.players_max, "min_players <= "@) + text_condition(p.weight_min, "weight >= "@) + text_condition(p.weight_max, "weight <= "@) + quoted_condition(p.game_type, "type = '"@) + quoted_condition(p.mode, "mode = '"@);
    assert(list_filters(p)[pre.len() as int] == "community_median_playtime <= "@ + int_text(p.community_playtime_max.unwrap() as int));
}

/// Each filter that the game list is given asks its own condition of every
/// listed game, with the given value in place: a lower bound with `>=`, an
/// upper bound with `<=`, a player count within the game's range, a type or
/// mode as a quoted literal.
pub proof fn lemma_each_list_filter_asks_its_condition(p: ListGamesParams)
    ensures
        p.players is Some && !list_effective(p) ==> list_filters(p).contains("min_players <= "@ + int_text(p.players.unwrap() as int) + " AND max_players >= "@ + int_text(p.players.unwrap() as int)),
        p.players_min is Some ==> list_filters(p).contains("max_players >= "@ + int_text(p.players_min.unwrap() as int)),
        p.players_max is Some ==> list_filters(p).contains("min_players <= "@ + int_text(p.players_max.unwrap() as int)),
        p.weight_min is Some ==> list_filters(p).contains("weight >= "@ + p.weight_min.unwrap()@),
        p.weight_max is Some ==> list_filters(p).contains("weight <= "@ + p.weight_max.unwrap()@),
        p.game_type is Some ==> list_filters(p).contains("type = '"@ + sql_escape(p.game_type.unwrap()@) + "'"@),
        p.mode is Some ==> list_filters(p).contains("mode = '"@ + sql_escape(p.mode.unwrap()@) + "'"@),
        p.community_playtime_max is Some ==> list_filters(p).contains("community_median_playtime <= "@ + int_text(p.community_playtime_max.unwrap() as int)),
{
    if p.players is Some && !list_effective(p) {
        lemma_list_players_condition(p);
    }
    if p.players_min is Some {
        lemma_list_players_min_condition(p);
    }
    if p.players_max is Some {
        lemma_list_players_max_condition(p);
    }
    if p.weight_min is Some {
        lemma_list_weight_min_condition(p);
    }
    if p.weight_max is Some {
        lemma_list_weight_max_condition(p);
    }
    if p.game_type is Some {
        lemma_list_game_type_condition(p);
    }
    if p.mode is Some {
        lemma_list_mode_condition(p);
    }
    if p.community_playtime_max is Some {
        lemma_list_community_playtime_max_condition(p);
    }
}

} // verus!
