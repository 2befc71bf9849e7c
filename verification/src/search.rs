//! Compound game search: eight filter dimensions joined with AND, values
//! within a dimension joined with OR, exclusions with NOT EXISTS. Every
//! value is sent as a numbered bind parameter; the `n`-th placeholder `$n`
//! of the query text stands for the `n`-th bound value.

use crate::games::{
    cap_limit, capped_limit, cursor_of_first, cursor_of_last, decode_opt_cursor, first_cursor,
    full_page, is_full_page, is_page_link, last_cursor, opt_cursor_value, page_link, where_clause,
    where_text, GAME_COLUMNS,
};
use crate::ids::{uuid_text, uuid_to_text};
use crate::keyset::{key_of_row, keyset_condition, keyset_text};
use crate::models::{is_link_to, link_to, PaginationLinks, PaginationMeta};
use crate::text::{
    append_u128, cat, chars_of, int_text, join, join_strings, nat_text, opt_text_is, opt_view, push_text,
    split_chars, split_on, string_of_chars, trim, trim_chars, views,
};
use vstd::prelude::*;

verus! {

/// The body of a compound search. Decimal bounds (rating, confidence,
/// weight) arrive as the IEEE-754 bit patterns of the requested numbers;
/// they are only ever bound as parameters.
pub struct SearchRequest {
    pub rating_min: Option<u64>,
    pub rating_max: Option<u64>,
    pub min_rating_votes: Option<i32>,
    pub confidence_min: Option<u64>,
    pub weight_min: Option<u64>,
    pub weight_max: Option<u64>,
    pub players: Option<i32>,
    pub players_min: Option<i32>,
    pub players_max: Option<i32>,
    pub top_at: Option<i32>,
    pub recommended_at: Option<i32>,
    pub playtime_min: Option<i32>,
    pub playtime_max: Option<i32>,
    pub playtime_source: Option<String>,
    pub playtime_experience: Option<String>,
    pub age_min: Option<i32>,
    pub age_max: Option<i32>,
    pub age_source: Option<String>,
    pub game_type: Option<Vec<String>>,
    pub mode: Option<String>,
    pub mechanics: Option<Vec<String>>,
    pub mechanics_all: Option<Vec<String>>,
    pub mechanics_not: Option<Vec<String>>,
    pub themes: Option<Vec<String>>,
    pub theme_not: Option<Vec<String>>,
    pub designer: Option<String>,
    pub publisher: Option<String>,
    pub category: Option<String>,
    pub year_min: Option<i32>,
    pub year_max: Option<i32>,
    pub effective: Option<bool>,
    pub sort: Option<String>,
    pub order: Option<String>,
    pub limit: Option<i64>,
    pub cursor: Option<String>,
}

/// A value bound to a query parameter (decimals as their bit patterns).
#[derive(Debug, PartialEq)]
pub enum BindValue {
    Int(i32),
    Float(u64),
    Str(String),
    Bigint(i64),
}

/// The mathematical form of a bound value.
pub enum BindView {
    Int(i32),
    Float(u64),
    Str(Seq<char>),
    Bigint(i64),
}

impl View for BindValue {
    type V = BindView;

    open spec fn view(&self) -> BindView {
        match self {
            BindValue::Int(v) => BindView::Int(*v),
            BindValue::Float(v) => BindView::Float(*v),
            BindValue::Str(s) => BindView::Str(s@),
            BindValue::Bigint(v) => BindView::Bigint(*v),
        }
    }
}

/// The views of a list of bound values.
pub open spec fn bind_views(v: Seq<BindValue>) -> Seq<BindView> {
    v.map_values(|b: BindValue| b@)
}

/// Conditions and bound values gathered so far. A bound value stands in
/// its condition as its numbered placeholder (the query that is sent) or,
/// when `valued`, as the value itself (what the condition asks, whatever
/// was bound before it).
pub struct QueryState {
    pub conds: Seq<Seq<char>>,
    pub binds: Seq<BindView>,
    pub valued: bool,
}

/// A bound value written out as text, its kind first; a text value is
/// preceded by its length, so that different values read differently.
pub open spec fn value_text(b: BindView) -> Seq<char> {
    match b {
        BindView::Int(x) => "{int "@ + int_text(x as int) + "}"@,
        BindView::Float(x) => "{float bits "@ + nat_text(x as nat) + "}"@,
        BindView::Str(t) => "{text "@ + nat_text(t.len()) + " "@ + t + "}"@,
        BindView::Bigint(x) => "{bigint "@ + int_text(x as int) + "}"@,
    }
}

/// How the `n`-th bound value `b` stands in its condition.
pub open spec fn slot(st: QueryState, n: nat, b: BindView) -> Seq<char> {
    if st.valued {
        value_text(b)
    } else {
        placeholder(n)
    }
}

/// The placeholder for the `n`-th bound value.
pub open spec fn placeholder(n: nat) -> Seq<char> {
    "$"@ + nat_text(n)
}

/// The placeholder for the next value to be bound.
pub open spec fn next_placeholder(st: QueryState) -> Seq<char> {
    placeholder(st.binds.len() + 1)
}

/// Adds the condition `prefix $n suffix` binding `b` as the `n`-th value.
pub open spec fn with_one(st: QueryState, prefix: Seq<char>, b: BindView, suffix: Seq<char>) -> QueryState {
    QueryState {
        conds: st.conds.push(prefix + slot(st, st.binds.len() + 1, b) + suffix),
        binds: st.binds.push(b),
        valued: st.valued,
    }
}

/// `with_one` when a value is given, otherwise no change.
pub open spec fn with_opt(st: QueryState, prefix: Seq<char>, b: Option<BindView>, suffix: Seq<char>) -> QueryState {
    match b {
        Some(v) => with_one(st, prefix, v, suffix),
        None => st,
    }
}

/// `n` consecutive placeholders starting with the `start`-th.
pub open spec fn placeholders(start: nat, n: nat) -> Seq<Seq<char>> {
    Seq::new(n, |i: int| placeholder((start + i) as nat))
}

/// The text values as bound strings.
pub open spec fn str_binds(vals: Seq<Seq<char>>) -> Seq<BindView> {
    vals.map_values(|v: Seq<char>| BindView::Str(v))
}

/// The slots of text values bound in order after those of `st`.
pub open spec fn list_slots(st: QueryState, vals: Seq<Seq<char>>) -> Seq<Seq<char>> {
    Seq::new(vals.len(), |i: int| slot(st, (st.binds.len() + 1 + i) as nat, BindView::Str(vals[i])))
}

/// Adds one condition holding a comma-separated placeholder per value,
/// binding the values in order.
pub open spec fn with_list(st: QueryState, prefix: Seq<char>, vals: Seq<Seq<char>>, suffix: Seq<char>) -> QueryState {
    QueryState {
        conds: st.conds.push(prefix + join(list_slots(st, vals), ", "@) + suffix),
        binds: st.binds + str_binds(vals),
        valued: st.valued,
    }
}

/// Adds one condition per value, in order.
pub open spec fn with_each(st: QueryState, prefix: Seq<char>, vals: Seq<Seq<char>>, suffix: Seq<char>) -> QueryState
    decreases vals.len(),
{
    if vals.len() == 0 {
        st
    } else {
        with_one(with_each(st, prefix, vals.drop_last(), suffix), prefix, BindView::Str(vals.last()), suffix)
    }
}

/// The view of an optional list of strings.
pub open spec fn opt_list(o: Option<Vec<String>>) -> Option<Seq<Seq<char>>> {
    match o {
        Some(v) => Some(views(v@)),
        None => None,
    }
}

pub open spec fn opt_int(v: Option<i32>) -> Option<BindView> {
    match v {
        Some(x) => Some(BindView::Int(x)),
        None => None,
    }
}

pub open spec fn opt_float(v: Option<u64>) -> Option<BindView> {
    match v {
        Some(x) => Some(BindView::Float(x)),
        None => None,
    }
}

pub open spec fn opt_str(v: Option<String>) -> Option<BindView> {
    match v {
        Some(x) => Some(BindView::Str(x@)),
        None => None,
    }
}

/// `with_list` when a list is given, otherwise no change.
pub open spec fn with_opt_list(st: QueryState, prefix: Seq<char>, vals: Option<Seq<Seq<char>>>, suffix: Seq<char>) -> QueryState {
    match vals {
        Some(v) => with_list(st, prefix, v, suffix),
        None => st,
    }
}

/// `with_each` when a list is given, otherwise no change.
pub open spec fn with_opt_each(st: QueryState, prefix: Seq<char>, vals: Option<Seq<Seq<char>>>, suffix: Seq<char>) -> QueryState {
    match vals {
        Some(v) => with_each(st, prefix, v, suffix),
        None => st,
    }
}

/// Dimension 1: rating and confidence.
pub open spec fn rating_dimension(r: SearchRequest, st: QueryState) -> QueryState {
    let s1 = with_opt(st, "g.rating >= "@, opt_float(r.rating_min), ""@);
    let s2 = with_opt(s1, "g.rating <= "@, opt_float(r.rating_max), ""@);
    let s3 = with_opt(s2, "g.rating_votes >= "@, opt_int(r.min_rating_votes), ""@);
    with_opt(s3, "g.rating_confidence >= "@, opt_float(r.confidence_min), ""@)
}

/// Dimension 2: weight.
pub open spec fn weight_dimension(r: SearchRequest, st: QueryState) -> QueryState {
    let s1 = with_opt(st, "g.weight >= "@, opt_float(r.weight_min), ""@);
    with_opt(s1, "g.weight <= "@, opt_float(r.weight_max), ""@)
}

/// Effective mode is on.
pub open spec fn search_effective(r: SearchRequest) -> bool {
    match r.effective {
        Some(b) => b,
        None => false,
    }
}

/// The player-count condition of a search: base range (two placeholders), or
/// in effective mode also combinations and summed deltas (five placeholders).
pub open spec fn with_players(st: QueryState, p: i32, effective: bool) -> QueryState {
    let n = st.binds.len();
    if effective {
        QueryState {
            conds: st.conds.push(
                "((g.min_players <= "@ + slot(st, n + 1, BindView::Int(p)) + " AND g.max_players >= "@
                    + slot(st, n + 2, BindView::Int(p))
                    + ")\n                  OR g.id IN (\n                     SELECT base_game_id FROM expansion_combinations\n                     WHERE effective_min_players <= "@
                    + slot(st, n + 3, BindView::Int(p)) + " AND effective_max_players >= "@ + slot(st, n + 4, BindView::Int(p))
                    + "\n                  )\n                  OR g.id IN (\n                     SELECT base_game_id FROM property_modifications\n                     GROUP BY base_game_id\n                     HAVING (SELECT g2.max_players FROM games g2 WHERE g2.id = base_game_id)\n                            + MAX(max_players_delta) >= "@
                    + slot(st, n + 5, BindView::Int(p)) + "\n                  ))"@,
            ),
            binds: st.binds + seq![
                BindView::Int(p),
                BindView::Int(p),
                BindView::Int(p),
                BindView::Int(p),
                BindView::Int(p),
            ],
            valued: st.valued,
        }
    } else {
        QueryState {
            conds: st.conds.push(
                "g.min_players <= "@ + slot(st, n + 1, BindView::Int(p)) + " AND g.max_players >= "@ + slot(st, n + 2, BindView::Int(p)),
            ),
            binds: st.binds + seq![BindView::Int(p), BindView::Int(p)],
            valued: st.valued,
        }
    }
}

/// Dimension 3: player count.
pub open spec fn players_dimension(r: SearchRequest, st: QueryState) -> QueryState {
    let s1 = match r.players {
        Some(p) => with_players(st, p, search_effective(r)),
        None => st,
    };
    let s2 = with_opt(s1, "g.max_players >= "@, opt_int(r.players_min), ""@);
    let s3 = with_opt(s2, "g.min_players <= "@, opt_int(r.players_max), ""@);
    let s4 = with_opt(s3, "g.top_player_counts @> ARRAY["@, opt_int(r.top_at), "]::INTEGER[]"@);
    with_opt(s4, "g.recommended_player_counts @> ARRAY["@, opt_int(r.recommended_at), "]::INTEGER[]"@)
}

/// Play time is filtered on the experience-level table.
pub open spec fn by_experience(r: SearchRequest) -> bool {
    r.playtime_experience is Some && (r.playtime_min is Some || r.playtime_max is Some)
}

/// The experience-level play-time condition and its bound values.
pub open spec fn with_experience(st: QueryState, level: Seq<char>, min: Option<i32>, max: Option<i32>) -> QueryState {
    let n = st.binds.len();
    let first = seq!["ep.experience_level = "@ + slot(st, n + 1, BindView::Str(level))];
    let with_min = match min {
        Some(x) => first.push("ep.median_minutes >= "@ + slot(st, n + 2, BindView::Int(x))),
        None => first,
    };
    let m = if min is Some {
        n + 3
    } else {
        n + 2
    };
    let subs = match max {
        Some(x) => with_min.push("ep.median_minutes <= "@ + slot(st, m, BindView::Int(x))),
        None => with_min,
    };
    let binds = seq![BindView::Str(level)] + match min {
        Some(x) => seq![BindView::Int(x)],
        None => seq![],
    } + match max {
        Some(x) => seq![BindView::Int(x)],
        None => seq![],
    };
    QueryState {
        conds: st.conds.push(
            "EXISTS (SELECT 1 FROM experience_playtime ep WHERE ep.game_id = g.id AND "@ + join(
                subs,
                " AND "@,
            ) + ")"@,
        ),
        binds: st.binds + binds,
        valued: st.valued,
    }
}

/// Play time is read from the community columns.
pub open spec fn is_community(source: Option<String>) -> bool {
    source is Some && source.unwrap()@ == "community"@
}

/// Dimension 4: play time.
pub open spec fn playtime_dimension(r: SearchRequest, st: QueryState) -> QueryState {
    if by_experience(r) {
        with_experience(st, r.playtime_experience.unwrap()@, r.playtime_min, r.playtime_max)
    } else {
        let min_col = if is_community(r.playtime_source) {
            "g.community_min_playtime"@
        } else {
            "g.min_playtime"@
        };
        let max_col = if is_community(r.playtime_source) {
            "g.community_max_playtime"@
        } else {
            "g.max_playtime"@
        };
        let s1 = with_opt(st, max_col + " >= "@, opt_int(r.playtime_min), ""@);
        with_opt(s1, min_col + " <= "@, opt_int(r.playtime_max), ""@)
    }
}

/// Dimension 5: age.
pub open spec fn age_dimension(r: SearchRequest, st: QueryState) -> QueryState {
    let col = if is_community(r.age_source) {
        "g.community_suggested_age"@
    } else {
        "g.min_age"@
    };
    let s1 = with_opt(st, col + " >= "@, opt_int(r.age_min), ""@);
    with_opt(s1, col + " <= "@, opt_int(r.age_max), ""@)
}

/// Dimension 6: game type and mechanics.
pub open spec fn type_dimension(r: SearchRequest, st: QueryState) -> QueryState {
    let s1 = with_opt_list(st, "g.type IN ("@, opt_list(r.game_type), ")"@);
    let s2 = with_opt(s1, "g.mode = "@, opt_str(r.mode), ""@);
    let s3 = with_opt_list(
        s2,
        "EXISTS (SELECT 1 FROM game_mechanics gm JOIN mechanics m ON m.id = gm.mechanic_id WHERE gm.game_id = g.id AND m.slug IN ("@,
        opt_list(r.mechanics),
        "))"@,
    );
    let s4 = with_opt_each(
        s3,
        "EXISTS (SELECT 1 FROM game_mechanics gm JOIN mechanics m ON m.id = gm.mechanic_id WHERE gm.game_id = g.id AND m.slug = "@,
        opt_list(r.mechanics_all),
        ")"@,
    );
    with_opt_list(
        s4,
        "NOT EXISTS (SELECT 1 FROM game_mechanics gm JOIN mechanics m ON m.id = gm.mechanic_id WHERE gm.game_id = g.id AND m.slug IN ("@,
        opt_list(r.mechanics_not),
        "))"@,
    )
}

/// Dimension 7: theme.
pub open spec fn theme_dimension(r: SearchRequest, st: QueryState) -> QueryState {
    let s1 = with_opt_list(
        st,
        "EXISTS (SELECT 1 FROM game_themes gt JOIN themes t ON t.id = gt.theme_id WHERE gt.game_id = g.id AND t.slug IN ("@,
        opt_list(r.themes),
        "))"@,
    );
    with_opt_list(
        s1,
        "NOT EXISTS (SELECT 1 FROM game_themes gt JOIN themes t ON t.id = gt.theme_id WHERE gt.game_id = g.id AND t.slug IN ("@,
        opt_list(r.theme_not),
        "))"@,
    )
}

/// Dimension 8: metadata.
pub open spec fn metadata_dimension(r: SearchRequest, st: QueryState) -> QueryState {
    let s1 = with_opt(
        st,
        "EXISTS (SELECT 1 FROM game_credits gc JOIN people p ON p.id = gc.person_id WHERE gc.game_id = g.id AND gc.role = 'designer' AND p.slug = "@,
        opt_str(r.designer),
        ")"@,
    );
    let s2 = with_opt(
        s1,
        "EXISTS (SELECT 1 FROM game_editions ge JOIN edition_publishers ep ON ep.edition_id = ge.id JOIN publishers pub ON pub.id = ep.publisher_id WHERE ge.game_id = g.id AND pub.slug = "@,
        opt_str(r.publisher),
        ")"@,
    );
    let s3 = with_opt(
        s2,
        "EXISTS (SELECT 1 FROM game_categories gc JOIN categories c ON c.id = gc.category_id WHERE gc.game_id = g.id AND c.slug = "@,
        opt_str(r.category),
        ")"@,
    );
    let s4 = with_opt(s3, "g.year_published >= "@, opt_int(r.year_min), ""@);
    with_opt(s4, "g.year_published <= "@, opt_int(r.year_max), ""@)
}

/// The eight filter dimensions in order, after what `st` holds.
pub open spec fn filters_from(r: SearchRequest, st: QueryState) -> QueryState {
    metadata_dimension(
        r,
        theme_dimension(
            r,
            type_dimension(
                r,
                age_dimension(
                    r,
                    playtime_dimension(
                        r,
                        players_dimension(r, weight_dimension(r, rating_dimension(r, st))),
                    ),
                ),
            ),
        ),
    )
}

/// No condition and no bound value yet.
pub open spec fn no_conditions(valued: bool) -> QueryState {
    QueryState { conds: seq![], binds: seq![], valued }
}

/// The filter conditions and their bound values, all eight dimensions in order.
pub open spec fn search_filters(r: SearchRequest) -> QueryState {
    filters_from(r, no_conditions(false))
}

/// What the filter conditions of a search ask, each with its values
/// written in place of its placeholders.
pub open spec fn filter_meaning(r: SearchRequest) -> Seq<Seq<char>> {
    filters_from(r, no_conditions(true)).conds
}

/// The sort value a search is ordered by.
pub open spec fn search_sort_key(sort: Option<String>) -> Seq<char> {
    match sort {
        Some(s) => if s@ == "rating"@ || s@ == "rating_desc"@ {
            "rating"@
        } else if s@ == "bayes_rating"@ {
            "bayes_rating"@
        } else if s@ == "weight"@ {
            "weight"@
        } else if s@ == "year"@ {
            "year_published"@
        } else if s@ == "name"@ {
            "name"@
        } else {
            "rating"@
        },
        None => "rating"@,
    }
}

/// The column a search is ordered by.
pub open spec fn search_sort_column(sort: Option<String>) -> Seq<char> {
    "g."@ + search_sort_key(sort)
}

/// A search is in ascending order (descending unless ascending is asked for).
pub open spec fn search_ascending(order: Option<String>) -> bool {
    order is Some && order.unwrap()@ == "asc"@
}

/// The direction of a search.
pub open spec fn search_sort_order(order: Option<String>) -> Seq<char> {
    if search_ascending(order) {
        "ASC NULLS LAST"@
    } else {
        "DESC NULLS LAST"@
    }
}

/// The cursor's game id as bound text read as a UUID (`$n::uuid`).
pub open spec fn cursor_param(st: QueryState) -> Seq<char> {
    next_placeholder(st) + "::uuid"@
}

/// Adds the keyset condition of the cursor, binding the cursor's game id:
/// the games after it in the search order (sort value, then id).
pub open spec fn with_cursor(st: QueryState, r: SearchRequest, id: u128) -> QueryState {
    let key = search_sort_key(r.sort);
    let x = cursor_param(st);
    QueryState {
        conds: st.conds.push(
            keyset_text(
                search_sort_column(r.sort),
                "g.id"@,
                key_of_row(key, x),
                x,
                search_ascending(r.order),
                true,
                false,
            ),
        ),
        binds: st.binds.push(BindView::Str(uuid_text(id))),
        valued: st.valued,
    }
}

/// The filters followed by the keyset condition of the cursor, if any.
pub open spec fn search_conditions(r: SearchRequest) -> QueryState {
    match opt_cursor_value(r.cursor) {
        Some(id) => with_cursor(search_filters(r), r, id),
        None => search_filters(r),
    }
}

/// The `WHERE` clause of the count query: the filters, or none when no
/// filter value is bound.
pub open spec fn search_count_where(r: SearchRequest) -> Seq<char> {
    let filters = search_filters(r);
    if filters.binds.len() == 0 {
        seq![]
    } else {
        where_clause(filters.conds)
    }
}

/// The columns of a column list, each qualified by the `g` alias of the
/// games table: the pieces between `", "`, trimmed, prefixed with `g.`.
pub open spec fn qualified_columns(cols: Seq<char>) -> Seq<char> {
    join(split_on(cols, ", "@).map_values(|c: Seq<char>| "g."@ + trim(c)), ", "@)
}

/// Qualifies every column of a column list by the `g` alias.
pub fn qualify_columns(cols: &str) -> (res: String)
    ensures
        res@ == qualified_columns(cols@),
{
    let v = chars_of(cols);
    let sep = chars_of(", ");
    proof {
        reveal_strlit(", ");
    }
    let pieces = split_chars(&v, &sep);
    let ghost want = split_on(cols@, ", "@).map_values(|c: Seq<char>| "g."@ + trim(c));
    let mut out: Vec<String> = Vec::new();
    let mut i: usize = 0;
    while i < pieces.len()
        invariant
            i <= pieces@.len(),
            pieces@.map_values(|p: Vec<char>| p@) == split_on(cols@, ", "@),
            want == split_on(cols@, ", "@).map_values(|c: Seq<char>| "g."@ + trim(c)),
            views(out@) == want.take(i as int),
        decreases pieces.len() - i,
    {
        let t = trim_chars(&pieces[i]);
        let ts = string_of_chars(&t);
        assert(pieces@[i as int]@ == split_on(cols@, ", "@)[i as int]);
        push_text(&mut out, cat("g.", ts.as_str()));
        assert(want.take(i + 1) =~= want.take(i as int).push(want[i as int]));
        i = i + 1;
    }
    assert(want.take(pieces@.len() as int) =~= want);
    join_strings(&out, ", ")
}

/// The page query of a search; its last placeholder is the page size.
pub open spec fn search_data_sql(r: SearchRequest) -> Seq<char> {
    let all = search_conditions(r);
    "SELECT "@ + qualified_columns(GAME_COLUMNS@) + " FROM games g "@ + where_clause(all.conds) + " ORDER BY "@
        + search_sort_column(r.sort) + " "@ + search_sort_order(r.order) + ", g.id ASC LIMIT "@
        + placeholder(all.binds.len() + 1)
}

/// The count query of a search.
pub open spec fn search_count_sql(r: SearchRequest) -> Seq<char> {
    "SELECT COUNT(*) FROM games g "@ + search_count_where(r)
}

/// Conditions and bound values under construction.
pub struct QueryBuilder {
    pub conds: Vec<String>,
    pub binds: Vec<BindValue>,
}

impl View for QueryBuilder {
    type V = QueryState;

    open spec fn view(&self) -> QueryState {
        QueryState { conds: views(self.conds@), binds: bind_views(self.binds@), valued: false }
    }
}

impl QueryBuilder {
    fn new() -> (b: Self)
        ensures
            b@ == no_conditions(false),
    {
        let b = QueryBuilder { conds: Vec::new(), binds: Vec::new() };
        assert(b@.conds =~= seq![]);
        assert(b@.binds =~= seq![]);
        b
    }

    fn next_placeholder(&self) -> (p: String)
        ensures
            p@ == next_placeholder(self@),
    {
        let mut p = String::from_str("$");
        append_u128(&mut p, self.binds.len() as u128 + 1);
        p
    }

    fn bind(&mut self, v: BindValue)
        ensures
            final(self).conds == old(self).conds,
            final(self)@.binds == old(self)@.binds.push(v@),
    {
        self.binds.push(v);
        assert(bind_views(self.binds@) =~= bind_views(old(self).binds@).push(v@));
    }

    fn add_one(&mut self, prefix: &str, v: BindValue, suffix: &str)
        ensures
            final(self)@ == with_one(old(self)@, prefix@, v@, suffix@),
    {
        let mut c = String::from_str(prefix);
        let p = self.next_placeholder();
        c.append(p.as_str());
        c.append(suffix);
        push_text(&mut self.conds, c);
        self.bind(v);
    }

    fn add_int(&mut self, prefix: &str, v: Option<i32>, suffix: &str)
        ensures
            final(self)@ == with_opt(old(self)@, prefix@, opt_int(v), suffix@),
    {
        if let Some(x) = v {
            self.add_one(prefix, BindValue::Int(x), suffix);
        }
    }

    fn add_float(&mut self, prefix: &str, v: Option<u64>, suffix: &str)
        ensures
            final(self)@ == with_opt(old(self)@, prefix@, opt_float(v), suffix@),
    {
        if let Some(x) = v {
            self.add_one(prefix, BindValue::Float(x), suffix);
        }
    }

    fn add_str(&mut self, prefix: &str, v: &Option<String>, suffix: &str)
        ensures
            final(self)@ == with_opt(old(self)@, prefix@, opt_str(*v), suffix@),
    {
        if let Some(x) = v {
            self.add_one(prefix, BindValue::Str(x.clone()), suffix);
        }
    }

    fn add_list(&mut self, prefix: &str, vals: &Vec<String>, suffix: &str)
        ensures
            final(self)@ == with_list(old(self)@, prefix@, views(vals@), suffix@),
    {
        let ghost start = old(self)@;
        let ghost vs = views(vals@);
        let mut phs: Vec<String> = Vec::new();
        let mut i: usize = 0;
        while i < vals.len()
            invariant
                i <= vals@.len(),
                vs == views(vals@),
                self.conds == old(self).conds,
                self@.binds == start.binds + str_binds(vs.take(i as int)),
                views(phs@) == placeholders(start.binds.len() + 1, i as nat),
            decreases vals.len() - i,
        {
            let p = self.next_placeholder();
            push_text(&mut phs, p);
            self.bind(BindValue::Str(vals[i].clone()));
            assert(str_binds(vs.take(i + 1)) =~= str_binds(vs.take(i as int)).push(
                BindView::Str(vs[i as int]),
            ));
            assert(views(phs@) =~= placeholders(start.binds.len() + 1, (i + 1) as nat));
            i = i + 1;
        }
        assert(vs.take(vals@.len() as int) =~= vs);
        assert(placeholders(start.binds.len() + 1, vs.len()) =~= list_slots(start, vs));
        let joined = join_strings(&phs, ", ");
        let mut c = String::from_str(prefix);
        c.append(joined.as_str());
        c.append(suffix);
        push_text(&mut self.conds, c);
    }

    fn add_each(&mut self, prefix: &str, vals: &Vec<String>, suffix: &str)
        ensures
            final(self)@ == with_each(old(self)@, prefix@, views(vals@), suffix@),
    {
        let ghost vs = views(vals@);
        let mut i: usize = 0;
        while i < vals.len()
            invariant
                i <= vals@.len(),
                vs == views(vals@),
                self@ == with_each(old(self)@, prefix@, vs.take(i as int), suffix@),
            decreases vals.len() - i,
        {
            self.add_one(prefix, BindValue::Str(vals[i].clone()), suffix);
            assert(vs.take(i + 1).drop_last() =~= vs.take(i as int));
            i = i + 1;
        }
        assert(vs.take(vals@.len() as int) =~= vs);
    }

    fn add_opt_list(&mut self, prefix: &str, vals: &Option<Vec<String>>, suffix: &str)
        ensures
            final(self)@ == with_opt_list(old(self)@, prefix@, opt_list(*vals), suffix@),
    {
        if let Some(v) = vals {
            self.add_list(prefix, v, suffix);
        }
    }

    fn add_opt_each(&mut self, prefix: &str, vals: &Option<Vec<String>>, suffix: &str)
        ensures
            final(self)@ == with_opt_each(old(self)@, prefix@, opt_list(*vals), suffix@),
    {
        if let Some(v) = vals {
            self.add_each(prefix, v, suffix);
        }
    }
}

/// What a compound search asks of the database, and what it needs afterwards.
pub struct SearchPlan {
    pub limit: i64,
    pub effective: bool,
    pub cursor_id: Option<u128>,
    /// The count query, which binds the first `count_bind_count` values.
    pub count_sql: String,
    pub count_bind_count: usize,
    /// The page query, which binds all values.
    pub data_sql: String,
    pub binds: Vec<BindValue>,
}

fn add_players(b: &mut QueryBuilder, p: i32, effective: bool)
    ensures
        final(b)@ == with_players(old(b)@, p, effective),
{
    let ghost st = old(b)@;
    let mut c = String::new();
    if effective {
        c.append("((g.min_players <= ");
        let p1 = b.next_placeholder();
        c.append(p1.as_str());
        b.bind(BindValue::Int(p));
        c.append(" AND g.max_players >= ");
        let p2 = b.next_placeholder();
        c.append(p2.as_str());
        b.bind(BindValue::Int(p));
        c.append(
            ")\n                  OR g.id IN (\n                     SELECT base_game_id FROM expansion_combinations\n                     WHERE effective_min_players <= ",
        );
        let p3 = b.next_placeholder();
        c.append(p3.as_str());
        b.bind(BindValue::Int(p));
        c.append(" AND effective_max_players >= ");
        let p4 = b.next_placeholder();
        c.append(p4.as_str());
        b.bind(BindValue::Int(p));
        c.append(
            "\n                  )\n                  OR g.id IN (\n                     SELECT base_game_id FROM property_modifications\n                     GROUP BY base_game_id\n                     HAVING (SELECT g2.max_players FROM games g2 WHERE g2.id = base_game_id)\n                            + MAX(max_players_delta) >= ",
        );
        let p5 = b.next_placeholder();
        c.append(p5.as_str());
        b.bind(BindValue::Int(p));
        c.append("\n                  ))");
    } else {
        c.append("g.min_players <= ");
        let p1 = b.next_placeholder();
        c.append(p1.as_str());
        b.bind(BindValue::Int(p));
        c.append(" AND g.max_players >= ");
        let p2 = b.next_placeholder();
        c.append(p2.as_str());
        b.bind(BindValue::Int(p));
    }
    push_text(&mut b.conds, c);
    assert(b@.binds =~= with_players(st, p, effective).binds);
    assert(b@.conds =~= with_players(st, p, effective).conds);
}

fn add_experience(b: &mut QueryBuilder, level: &String, min: Option<i32>, max: Option<i32>)
    ensures
        final(b)@ == with_experience(old(b)@, level@, min, max),
{
    let ghost st = old(b)@;
    let mut subs: Vec<String> = Vec::new();
    let p1 = b.next_placeholder();
    push_text(&mut subs, cat("ep.experience_level = ", p1.as_str()));
    b.bind(BindValue::Str(level.clone()));
    if let Some(x) = min {
        let p2 = b.next_placeholder();
        push_text(&mut subs, cat("ep.median_minutes >= ", p2.as_str()));
        b.bind(BindValue::Int(x));
    }
    if let Some(x) = max {
        let p3 = b.next_placeholder();
        push_text(&mut subs, cat("ep.median_minutes <= ", p3.as_str()));
        b.bind(BindValue::Int(x));
    }
    let joined = join_strings(&subs, " AND ");
    let mut c = String::from_str("EXISTS (SELECT 1 FROM experience_playtime ep WHERE ep.game_id = g.id AND ");
    c.append(joined.as_str());
    c.append(")");
    push_text(&mut b.conds, c);
    let ghost want = with_experience(st, level@, min, max);
    assert(views(subs@) =~= {
        let n = st.binds.len();
        let first = seq!["ep.experience_level = "@ + slot(st, n + 1, BindView::Str(level@))];
        let with_min = match min {
            Some(x) => first.push("ep.median_minutes >= "@ + slot(st, n + 2, BindView::Int(x))),
            None => first,
        };
        let m = if min is Some { n + 3 } else { n + 2 };
        match max {
            Some(x) => with_min.push("ep.median_minutes <= "@ + slot(st, m, BindView::Int(x))),
            None => with_min,
        }
    });
    assert(b@.binds =~= want.binds);
    assert(b@.conds =~= want.conds);
}

fn add_playtime(b: &mut QueryBuilder, r: &SearchRequest)
    ensures
        final(b)@ == playtime_dimension(*r, old(b)@),
{
    if r.playtime_experience.is_some() && (r.playtime_min.is_some() || r.playtime_max.is_some()) {
        match &r.playtime_experience {
            Some(level) => add_experience(b, level, r.playtime_min, r.playtime_max),
            None => {},
        }
    } else {
        let community = opt_text_is(&r.playtime_source, "community");
        let (min_col, max_col): (&str, &str) = if community {
            ("g.community_min_playtime", "g.community_max_playtime")
        } else {
            ("g.min_playtime", "g.max_playtime")
        };
        let max_ge = cat(max_col, " >= ");
        let min_le = cat(min_col, " <= ");
        b.add_int(max_ge.as_str(), r.playtime_min, "");
        b.add_int(min_le.as_str(), r.playtime_max, "");
    }
}

fn add_age(b: &mut QueryBuilder, r: &SearchRequest)
    ensures
        final(b)@ == age_dimension(*r, old(b)@),
{
    let community = opt_text_is(&r.age_source, "community");
    let col: &str = if community {
        "g.community_suggested_age"
    } else {
        "g.min_age"
    };
    let ge = cat(col, " >= ");
    let le = cat(col, " <= ");
    b.add_int(ge.as_str(), r.age_min, "");
    b.add_int(le.as_str(), r.age_max, "");
}

/// Plans a compound search: the conditions of all eight dimensions with
/// their numbered bind values, the keyset condition, the count query (which
/// binds only the values before the cursor) and the page query (whose last
/// placeholder is the page size, the last bound value).
pub fn plan_search(r: &SearchRequest) -> (plan: SearchPlan)
    ensures
        plan.limit == capped_limit(r.limit, 25, 100),
        plan.effective == search_effective(*r),
        plan.cursor_id == opt_cursor_value(r.cursor),
        bind_views(plan.binds@) == search_conditions(*r).binds.push(BindView::Bigint(plan.limit)),
        plan.count_bind_count == search_filters(*r).binds.len(),
        plan.count_bind_count < plan.binds@.len(),
        plan.count_sql@ == search_count_sql(*r),
        plan.data_sql@ == search_data_sql(*r),
        plan.data_sql@ == "SELECT "@ + qualified_columns(GAME_COLUMNS@) + " FROM games g "@ + where_clause(
            search_conditions(*r).conds,
        ) + " ORDER BY "@ + search_sort_column(r.sort) + " "@ + search_sort_order(r.order)
            + ", g.id ASC LIMIT "@ + placeholder(plan.binds@.len()),
{
    let limit = cap_limit(r.limit, 25, 100);
    let effective = match r.effective {
        Some(e) => e,
        None => false,
    };
    let cursor_id = decode_opt_cursor(&r.cursor);

    let mut b = QueryBuilder::new();
    // Dimension 1: rating and confidence.
    b.add_float("g.rating >= ", r.rating_min, "");
    b.add_float("g.rating <= ", r.rating_max, "");
    b.add_int("g.rating_votes >= ", r.min_rating_votes, "");
    b.add_float("g.rating_confidence >= ", r.confidence_min, "");
    // Dimension 2: weight.
    b.add_float("g.weight >= ", r.weight_min, "");
    b.add_float("g.weight <= ", r.weight_max, "");
    // Dimension 3: player count.
    if let Some(p) = r.players {
        add_players(&mut b, p, effective);
    }
    b.add_int("g.max_players >= ", r.players_min, "");
    b.add_int("g.min_players <= ", r.players_max, "");
    b.add_int("g.top_player_counts @> ARRAY[", r.top_at, "]::INTEGER[]");
    b.add_int("g.recommended_player_counts @> ARRAY[", r.recommended_at, "]::INTEGER[]");
    // Dimension 4: play time.
    add_playtime(&mut b, r);
    // Dimension 5: age.
    add_age(&mut b, r);
    // Dimension 6: game type and mechanics.
    b.add_opt_list("g.type IN (", &r.game_type, ")");
    b.add_str("g.mode = ", &r.mode, "");
    b.add_opt_list(
        "EXISTS (SELECT 1 FROM game_mechanics gm JOIN mechanics m ON m.id = gm.mechanic_id WHERE gm.game_id = g.id AND m.slug IN (",
        &r.mechanics,
        "))",
    );
    b.add_opt_each(
        "EXISTS (SELECT 1 FROM game_mechanics gm JOIN mechanics m ON m.id = gm.mechanic_id WHERE gm.game_id = g.id AND m.slug = ",
        &r.mechanics_all,
        ")",
    );
    b.add_opt_list(
        "NOT EXISTS (SELECT 1 FROM game_mechanics gm JOIN mechanics m ON m.id = gm.mechanic_id WHERE gm.game_id = g.id AND m.slug IN (",
        &r.mechanics_not,
        "))",
    );
    // Dimension 7: theme.
    b.add_opt_list(
        "EXISTS (SELECT 1 FROM game_themes gt JOIN themes t ON t.id = gt.theme_id WHERE gt.game_id = g.id AND t.slug IN (",
        &r.themes,
        "))",
    );
    b.add_opt_list(
        "NOT EXISTS (SELECT 1 FROM game_themes gt JOIN themes t ON t.id = gt.theme_id WHERE gt.game_id = g.id AND t.slug IN (",
        &r.theme_not,
        "))",
    );
    // Dimension 8: metadata.
    b.add_str(
        "EXISTS (SELECT 1 FROM game_credits gc JOIN people p ON p.id = gc.person_id WHERE gc.game_id = g.id AND gc.role = 'designer' AND p.slug = ",
        &r.designer,
        ")",
    );
    b.add_str(
        "EXISTS (SELECT 1 FROM game_editions ge JOIN edition_publishers ep ON ep.edition_id = ge.id JOIN publishers pub ON pub.id = ep.publisher_id WHERE ge.game_id = g.id AND pub.slug = ",
        &r.publisher,
        ")",
    );
    b.add_str(
        "EXISTS (SELECT 1 FROM game_categories gc JOIN categories c ON c.id = gc.category_id WHERE gc.game_id = g.id AND c.slug = ",
        &r.category,
        ")",
    );
    b.add_int("g.year_published >= ", r.year_min, "");
    b.add_int("g.year_published <= ", r.year_max, "");
    assert(b@ == search_filters(*r));

    let count_bind_count = b.binds.len();
    let count_where = if count_bind_count == 0 {
        String::new()
    } else {
        where_text(&b.conds)
    };
    assert(count_where@ == search_count_where(*r));

    let sort_key: &str = if opt_text_is(&r.sort, "rating") || opt_text_is(&r.sort, "rating_desc") {
        "rating"
    } else if opt_text_is(&r.sort, "bayes_rating") {
        "bayes_rating"
    } else if opt_text_is(&r.sort, "weight") {
        "weight"
    } else if opt_text_is(&r.sort, "year") {
        "year_published"
    } else if opt_text_is(&r.sort, "name") {
        "name"
    } else {
        "rating"
    };
    let ascending = opt_text_is(&r.order, "asc");
    let sort_order: &str = if ascending {
        "ASC NULLS LAST"
    } else {
        "DESC NULLS LAST"
    };
    let sort_col = cat("g.", sort_key);
    assert(sort_key@ == search_sort_key(r.sort));
    assert(sort_order@ == search_sort_order(r.order));

    if let Some(after_id) = cursor_id {
        let ghost before = b@;
        let mut x = b.next_placeholder();
        x.append("::uuid");
        let c = keyset_condition(sort_col.as_str(), "g.id", sort_key, x.as_str(), ascending, true, false);
        push_text(&mut b.conds, c);
        b.bind(BindValue::Str(uuid_to_text(after_id)));
        assert(b@ == with_cursor(before, *r, after_id));
    }
    assert(b@ == search_conditions(*r));

    let where_sql = where_text(&b.conds);

    let game_cols = qualify_columns(GAME_COLUMNS);
    let count_sql = cat("SELECT COUNT(*) FROM games g ", count_where.as_str());
    let mut data_sql = String::from_str("SELECT ");
    data_sql.append(game_cols.as_str());
    data_sql.append(" FROM games g ");
    data_sql.append(where_sql.as_str());
    data_sql.append(" ORDER BY ");
    data_sql.append(sort_col.as_str());
    data_sql.append(" ");
    data_sql.append(sort_order);
    data_sql.append(", g.id ASC LIMIT ");
    let limit_ph = b.next_placeholder();
    data_sql.append(limit_ph.as_str());
    b.bind(BindValue::Bigint(limit));
    assert(data_sql@ =~= search_data_sql(*r));
    assert(b@.binds.len() == b.binds@.len());
    assert(b.binds@.len() == search_conditions(*r).binds.len() + 1);

    SearchPlan {
        limit,
        effective,
        cursor_id,
        count_sql,
        count_bind_count,
        data_sql,
        binds: b.binds,
    }
}

/// The pagination metadata and links of a search page, given the ids of the
/// page's games in order and the filtered total: `next` after the last game
/// of a full page, `prev` before the first game when the search had a cursor.
pub fn search_page(plan: &SearchPlan, ids: &Vec<u128>, total: i64) -> (res: (
    PaginationMeta,
    PaginationLinks,
))
    ensures
        res.0.total == total,
        opt_view(res.0.next_cursor) == if is_full_page(ids@, plan.limit) {
            last_cursor(ids@)
        } else {
            None
        },
        opt_view(res.0.prev_cursor) == if plan.cursor_id is Some {
            first_cursor(ids@)
        } else {
            None
        },
        is_link_to(res.1.self_link, "/v1/games/search"@),
        is_page_link(res.1.next, "/v1/games/search?cursor="@, opt_view(res.0.next_cursor), plan.limit),
        res.1.prev is None,
{
    let next_cursor = if full_page(ids, plan.limit) {
        cursor_of_last(ids)
    } else {
        None
    };
    let prev_cursor = if plan.cursor_id.is_some() {
        cursor_of_first(ids)
    } else {
        None
    };
    let next = page_link("/v1/games/search?cursor=", &next_cursor, plan.limit);
    let meta = PaginationMeta { total, next_cursor, prev_cursor };
    let links = PaginationLinks {
        self_link: link_to(String::from_str("/v1/games/search")),
        next,
        prev: None,
    };
    (meta, links)
}

/// The same search without a cursor.
pub open spec fn without_cursor(r: SearchRequest) -> SearchRequest {
    SearchRequest { cursor: None, ..r }
}

/// The total reported with a search page does not depend on the page: the
/// count query and the values it binds are the same with or without a cursor.
pub proof fn lemma_search_count_ignores_cursor(r: SearchRequest)
    ensures
        search_count_sql(r) == search_count_sql(without_cursor(r)),
        search_filters(r) == search_filters(without_cursor(r)),
{
    assert(search_filters(r) == search_filters(without_cursor(r)));
}

/// One for a given value, none for a missing one.
pub open spec fn present<T>(o: Option<T>) -> nat {
    if o is Some {
        1
    } else {
        0
    }
}

/// The number of values in an optional list.
pub open spec fn list_len(o: Option<Vec<String>>) -> nat {
    match o {
        Some(v) => v@.len(),
        None => 0,
    }
}

/// The number of values a search filters by: each given value once, the
/// player count twice (five times in effective mode), and the experience
/// level once when play time is filtered by experience.
pub open spec fn search_value_count(r: SearchRequest) -> nat {
    let rating = present(r.rating_min) + present(r.rating_max) + present(r.min_rating_votes)
        + present(r.confidence_min);
    let weight = present(r.weight_min) + present(r.weight_max);
    let players = match r.players {
        Some(_) => if search_effective(r) {
            5nat
        } else {
            2nat
        },
        None => 0nat,
    } + present(r.players_min) + present(r.players_max) + present(r.top_at) + present(
        r.recommended_at,
    );
    let playtime = (if by_experience(r) {
        1nat
    } else {
        0nat
    }) + present(r.playtime_min) + present(r.playtime_max);
    let age = present(r.age_min) + present(r.age_max);
    let kind = list_len(r.game_type) + present(r.mode) + list_len(r.mechanics) + list_len(
        r.mechanics_all,
    ) + list_len(r.mechanics_not);
    let theme = list_len(r.themes) + list_len(r.theme_not);
    let meta = present(r.designer) + present(r.publisher) + present(r.category) + present(
        r.year_min,
    ) + present(r.year_max);
    rating + weight + players + playtime + age + kind + theme + meta
}

proof fn lemma_each_binds(st: QueryState, prefix: Seq<char>, vals: Seq<Seq<char>>, suffix: Seq<char>)
    ensures
        with_each(st, prefix, vals, suffix).binds.len() == st.binds.len() + vals.len(),
    decreases vals.len(),
{
    if vals.len() > 0 {
        lemma_each_binds(st, prefix, vals.drop_last(), suffix);
    }
}

proof fn lemma_opt_each_binds(st: QueryState, prefix: Seq<char>, v: Option<Vec<String>>, suffix: Seq<char>)
    ensures
        with_opt_each(st, prefix, opt_list(v), suffix).binds.len() == st.binds.len() + list_len(v),
{
    match v {
        Some(vals) => lemma_each_binds(st, prefix, views(vals@), suffix),
        None => {},
    }
}

proof fn lemma_type_binds(r: SearchRequest, st: QueryState)
    ensures
        type_dimension(r, st).binds.len() == st.binds.len() + list_len(r.game_type) + present(
            r.mode,
        ) + list_len(r.mechanics) + list_len(r.mechanics_all) + list_len(r.mechanics_not),
{
    let p3 =
        "EXISTS (SELECT 1 FROM game_mechanics gm JOIN mechanics m ON m.id = gm.mechanic_id WHERE gm.game_id = g.id AND m.slug IN ("@;
    let p4 =
        "EXISTS (SELECT 1 FROM game_mechanics gm JOIN mechanics m ON m.id = gm.mechanic_id WHERE gm.game_id = g.id AND m.slug = "@;
    let s1 = with_opt_list(st, "g.type IN ("@, opt_list(r.game_type), ")"@);
    let s2 = with_opt(s1, "g.mode = "@, opt_str(r.mode), ""@);
    let s3 = with_opt_list(s2, p3, opt_list(r.mechanics), "))"@);
    lemma_opt_each_binds(s3, p4, r.mechanics_all, ")"@);
}

proof fn lemma_playtime_binds(r: SearchRequest, st: QueryState)
    ensures
        playtime_dimension(r, st).binds.len() == st.binds.len() + (if by_experience(r) {
            1nat
        } else {
            0nat
        }) + present(r.playtime_min) + present(r.playtime_max),
{
}

proof fn lemma_rating_binds(r: SearchRequest, st: QueryState)
    ensures
        rating_dimension(r, st).binds.len() == st.binds.len() + present(r.rating_min) + present(
            r.rating_max,
        ) + present(r.min_rating_votes) + present(r.confidence_min),
{
}

proof fn lemma_weight_binds(r: SearchRequest, st: QueryState)
    ensures
        weight_dimension(r, st).binds.len() == st.binds.len() + present(r.weight_min) + present(
            r.weight_max,
        ),
{
}

proof fn lemma_players_binds(r: SearchRequest, st: QueryState)
    ensures
        players_dimension(r, st).binds.len() == st.binds.len() + match r.players {
            Some(_) => if search_effective(r) {
                5nat
            } else {
                2nat
            },
            None => 0nat,
        } + present(r.players_min) + present(r.players_max) + present(r.top_at) + present(
            r.recommended_at,
        ),
{
}

proof fn lemma_age_binds(r: SearchRequest, st: QueryState)
    ensures
        age_dimension(r, st).binds.len() == st.binds.len() + present(r.age_min) + present(
            r.age_max,
        ),
{
}

proof fn lemma_theme_binds(r: SearchRequest, st: QueryState)
    ensures
        theme_dimension(r, st).binds.len() == st.binds.len() + list_len(r.themes) + list_len(
            r.theme_not,
        ),
{
}

proof fn lemma_metadata_binds(r: SearchRequest, st: QueryState)
    ensures
        metadata_dimension(r, st).binds.len() == st.binds.len() + present(r.designer) + present(
            r.publisher,
        ) + present(r.category) + present(r.year_min) + present(r.year_max),
{
}

/// Every filter value of a search is bound, each exactly once (the player
/// count twice, or five times in effective mode), and the cursor once more.
pub proof fn lemma_every_value_bound_once(r: SearchRequest)
    ensures
        search_filters(r).binds.len() == search_value_count(r),
        search_conditions(r).binds.len() == search_value_count(r) + present(
            opt_cursor_value(r.cursor),
        ),
{
    let s0 = no_conditions(false);
    let s1 = rating_dimension(r, s0);
    let s2 = weight_dimension(r, s1);
    let s3 = players_dimension(r, s2);
    let s4 = playtime_dimension(r, s3);
    let s5 = age_dimension(r, s4);
    let s6 = type_dimension(r, s5);
    let s7 = theme_dimension(r, s6);
    lemma_rating_binds(r, s0);
    lemma_weight_binds(r, s1);
    lemma_players_binds(r, s2);
    lemma_playtime_binds(r, s3);
    lemma_age_binds(r, s4);
    lemma_type_binds(r, s5);
    lemma_theme_binds(r, s6);
    lemma_metadata_binds(r, s7);
}


/// The index `idx` places each element of `a` in `b`, in the same order.
pub open spec fn embeds(idx: Seq<int>, a: Seq<Seq<char>>, b: Seq<Seq<char>>) -> bool {
    &&& idx.len() == a.len()
    &&& forall|i: int| 0 <= i < a.len() ==> 0 <= #[trigger] idx[i] < b.len() && b[idx[i]] == a[i]
    &&& forall|i: int, j: int| 0 <= i < j < a.len() ==> #[trigger] idx[i] < #[trigger] idx[j]
}

/// Every element of `a` occurs in `b`, in the same order: `b` is `a` with
/// elements added.
pub open spec fn is_subsequence(a: Seq<Seq<char>>, b: Seq<Seq<char>>) -> bool {
    exists|idx: Seq<int>| embeds(idx, a, b)
}

proof fn lemma_empty_is_subsequence(b: Seq<Seq<char>>)
    ensures
        is_subsequence(seq![], b),
{
    assert(embeds(seq![], seq![], b));
}

proof fn lemma_subsequence_push_right(a: Seq<Seq<char>>, b: Seq<Seq<char>>, x: Seq<char>)
    requires
        is_subsequence(a, b),
    ensures
        is_subsequence(a, b.push(x)),
{
    let idx = choose|idx: Seq<int>| embeds(idx, a, b);
    assert(embeds(idx, a, b.push(x)));
}

proof fn lemma_subsequence_push_both(a: Seq<Seq<char>>, b: Seq<Seq<char>>, x: Seq<char>)
    requires
        is_subsequence(a, b),
    ensures
        is_subsequence(a.push(x), b.push(x)),
{
    let idx = choose|idx: Seq<int>| embeds(idx, a, b);
    let idx2 = idx.push(b.len() as int);
    assert forall|i: int, j: int| 0 <= i < j < a.push(x).len() implies idx2[i] < idx2[j] by {
        if j == a.len() {
            assert(idx2[i] == idx[i]);
        }
    }
    assert(embeds(idx2, a.push(x), b.push(x)));
}

/// Missing in the first, or the same in both.
pub open spec fn kept<T>(a: Option<T>, b: Option<T>) -> bool {
    a is None || a == b
}

/// `r2` asks at least what `r1` asks: every filter given in `r1` is given
/// the same in `r2`, which may give more; the effective mode and the
/// play-time and age sources are the same; and play time filtered by
/// experience level keeps its bounds (they make up one condition).
pub open spec fn adds_filters(r1: SearchRequest, r2: SearchRequest) -> bool {
    &&& r1.effective == r2.effective
    &&& r1.playtime_source == r2.playtime_source
    &&& r1.playtime_experience == r2.playtime_experience
    &&& r1.age_source == r2.age_source
    &&& kept(r1.rating_min, r2.rating_min)
    &&& kept(r1.rating_max, r2.rating_max)
    &&& kept(r1.min_rating_votes, r2.min_rating_votes)
    &&& kept(r1.confidence_min, r2.confidence_min)
    &&& kept(r1.weight_min, r2.weight_min)
    &&& kept(r1.weight_max, r2.weight_max)
    &&& kept(r1.players, r2.players)
    &&& kept(r1.players_min, r2.players_min)
    &&& kept(r1.players_max, r2.players_max)
    &&& kept(r1.top_at, r2.top_at)
    &&& kept(r1.recommended_at, r2.recommended_at)
    &&& kept(r1.playtime_min, r2.playtime_min)
    &&& kept(r1.playtime_max, r2.playtime_max)
    &&& kept(r1.age_min, r2.age_min)
    &&& kept(r1.age_max, r2.age_max)
    &&& kept(r1.game_type, r2.game_type)
    &&& kept(r1.mode, r2.mode)
    &&& kept(r1.mechanics, r2.mechanics)
    &&& kept(r1.mechanics_all, r2.mechanics_all)
    &&& kept(r1.mechanics_not, r2.mechanics_not)
    &&& kept(r1.themes, r2.themes)
    &&& kept(r1.theme_not, r2.theme_not)
    &&& kept(r1.designer, r2.designer)
    &&& kept(r1.publisher, r2.publisher)
    &&& kept(r1.category, r2.category)
    &&& kept(r1.year_min, r2.year_min)
    &&& kept(r1.year_max, r2.year_max)
    &&& by_experience(r1) ==> r1.playtime_min == r2.playtime_min && r1.playtime_max
        == r2.playtime_max
}

/// Both states write values in place, and `s2` holds every condition of
/// `s1`, in order.
pub open spec fn holds_all_of(s1: QueryState, s2: QueryState) -> bool {
    s1.valued && s2.valued && is_subsequence(s1.conds, s2.conds)
}

proof fn lemma_opt_keeps(
    s1: QueryState,
    s2: QueryState,
    prefix: Seq<char>,
    b1: Option<BindView>,
    b2: Option<BindView>,
    suffix: Seq<char>,
)
    requires
        holds_all_of(s1, s2),
        kept(b1, b2),
    ensures
        holds_all_of(with_opt(s1, prefix, b1, suffix), with_opt(s2, prefix, b2, suffix)),
{
    match b1 {
        Some(v) => lemma_subsequence_push_both(s1.conds, s2.conds, prefix + value_text(v) + suffix),
        None => match b2 {
            Some(v) => lemma_subsequence_push_right(s1.conds, s2.conds, prefix + value_text(v) + suffix),
            None => {},
        },
    }
}

proof fn lemma_opt_list_keeps(
    s1: QueryState,
    s2: QueryState,
    prefix: Seq<char>,
    v1: Option<Seq<Seq<char>>>,
    v2: Option<Seq<Seq<char>>>,
    suffix: Seq<char>,
)
    requires
        holds_all_of(s1, s2),
        kept(v1, v2),
    ensures
        holds_all_of(with_opt_list(s1, prefix, v1, suffix), with_opt_list(s2, prefix, v2, suffix)),
{
    match v1 {
        Some(v) => {
            assert(list_slots(s1, v) =~= list_slots(s2, v));
            lemma_subsequence_push_both(s1.conds, s2.conds, prefix + join(list_slots(s1, v), ", "@) + suffix);
        },
        None => match v2 {
            Some(v) => lemma_subsequence_push_right(
                s1.conds,
                s2.conds,
                prefix + join(list_slots(s2, v), ", "@) + suffix,
            ),
            None => {},
        },
    }
}

proof fn lemma_each_adds(s1: QueryState, s2: QueryState, prefix: Seq<char>, vals: Seq<Seq<char>>, suffix: Seq<char>)
    requires
        holds_all_of(s1, s2),
    ensures
        holds_all_of(s1, with_each(s2, prefix, vals, suffix)),
    decreases vals.len(),
{
    if vals.len() > 0 {
        lemma_each_adds(s1, s2, prefix, vals.drop_last(), suffix);
        let w = with_each(s2, prefix, vals.drop_last(), suffix);
        lemma_subsequence_push_right(s1.conds, w.conds, prefix + value_text(BindView::Str(vals.last())) + suffix);
    }
}

proof fn lemma_each_keeps(s1: QueryState, s2: QueryState, prefix: Seq<char>, vals: Seq<Seq<char>>, suffix: Seq<char>)
    requires
        holds_all_of(s1, s2),
    ensures
        holds_all_of(with_each(s1, prefix, vals, suffix), with_each(s2, prefix, vals, suffix)),
    decreases vals.len(),
{
    if vals.len() > 0 {
        lemma_each_keeps(s1, s2, prefix, vals.drop_last(), suffix);
        let w1 = with_each(s1, prefix, vals.drop_last(), suffix);
        let w2 = with_each(s2, prefix, vals.drop_last(), suffix);
        lemma_subsequence_push_both(w1.conds, w2.conds, prefix + value_text(BindView::Str(vals.last())) + suffix);
    }
}

proof fn lemma_opt_each_keeps(
    s1: QueryState,
    s2: QueryState,
    prefix: Seq<char>,
    v1: Option<Seq<Seq<char>>>,
    v2: Option<Seq<Seq<char>>>,
    suffix: Seq<char>,
)
    requires
        holds_all_of(s1, s2),
        kept(v1, v2),
    ensures
        holds_all_of(with_opt_each(s1, prefix, v1, suffix), with_opt_each(s2, prefix, v2, suffix)),
{
    match v1 {
        Some(v) => lemma_each_keeps(s1, s2, prefix, v, suffix),
        None => match v2 {
            Some(v) => lemma_each_adds(s1, s2, prefix, v, suffix),
            None => {},
        },
    }
}

proof fn lemma_rating_keeps(r1: SearchRequest, r2: SearchRequest, s1: QueryState, s2: QueryState)
    requires
        adds_filters(r1, r2),
        holds_all_of(s1, s2),
    ensures
        holds_all_of(rating_dimension(r1, s1), rating_dimension(r2, s2)),
{
    let a1 = with_opt(s1, "g.rating >= "@, opt_float(r1.rating_min), ""@);
    let a2 = with_opt(s2, "g.rating >= "@, opt_float(r2.rating_min), ""@);
    lemma_opt_keeps(s1, s2, "g.rating >= "@, opt_float(r1.rating_min), opt_float(r2.rating_min), ""@);
    let b1 = with_opt(a1, "g.rating <= "@, opt_float(r1.rating_max), ""@);
    let b2 = with_opt(a2, "g.rating <= "@, opt_float(r2.rating_max), ""@);
    lemma_opt_keeps(a1, a2, "g.rating <= "@, opt_float(r1.rating_max), opt_float(r2.rating_max), ""@);
    let c1 = with_opt(b1, "g.rating_votes >= "@, opt_int(r1.min_rating_votes), ""@);
    let c2 = with_opt(b2, "g.rating_votes >= "@, opt_int(r2.min_rating_votes), ""@);
    lemma_opt_keeps(b1, b2, "g.rating_votes >= "@, opt_int(r1.min_rating_votes), opt_int(r2.min_rating_votes), ""@);
    lemma_opt_keeps(
        c1,
        c2,
        "g.rating_confidence >= "@,
        opt_float(r1.confidence_min),
        opt_float(r2.confidence_min),
        ""@,
    );
}

proof fn lemma_weight_keeps(r1: SearchRequest, r2: SearchRequest, s1: QueryState, s2: QueryState)
    requires
        adds_filters(r1, r2),
        holds_all_of(s1, s2),
    ensures
        holds_all_of(weight_dimension(r1, s1), weight_dimension(r2, s2)),
{
    let a1 = with_opt(s1, "g.weight >= "@, opt_float(r1.weight_min), ""@);
    let a2 = with_opt(s2, "g.weight >= "@, opt_float(r2.weight_min), ""@);
    lemma_opt_keeps(s1, s2, "g.weight >= "@, opt_float(r1.weight_min), opt_float(r2.weight_min), ""@);
    lemma_opt_keeps(a1, a2, "g.weight <= "@, opt_float(r1.weight_max), opt_float(r2.weight_max), ""@);
}

proof fn lemma_players_keeps(r1: SearchRequest, r2: SearchRequest, s1: QueryState, s2: QueryState)
    requires
        adds_filters(r1, r2),
        holds_all_of(s1, s2),
    ensures
        holds_all_of(players_dimension(r1, s1), players_dimension(r2, s2)),
{
    let e = search_effective(r1);
    assert(e == search_effective(r2));
    let a1 = match r1.players {
        Some(p) => with_players(s1, p, e),
        None => s1,
    };
    let a2 = match r2.players {
        Some(p) => with_players(s2, p, e),
        None => s2,
    };
    match r2.players {
        Some(p) => {
            let x = with_players(s2, p, e).conds.last();
            assert(with_players(s2, p, e).conds == s2.conds.push(x));
            if r1.players is Some {
                assert(with_players(s1, p, e).conds =~= s1.conds.push(x));
                lemma_subsequence_push_both(s1.conds, s2.conds, x);
            } else {
                lemma_subsequence_push_right(s1.conds, s2.conds, x);
            }
        },
        None => {},
    }
    assert(holds_all_of(a1, a2));
    let b1 = with_opt(a1, "g.max_players >= "@, opt_int(r1.players_min), ""@);
    let b2 = with_opt(a2, "g.max_players >= "@, opt_int(r2.players_min), ""@);
    lemma_opt_keeps(a1, a2, "g.max_players >= "@, opt_int(r1.players_min), opt_int(r2.players_min), ""@);
    let c1 = with_opt(b1, "g.min_players <= "@, opt_int(r1.players_max), ""@);
    let c2 = with_opt(b2, "g.min_players <= "@, opt_int(r2.players_max), ""@);
    lemma_opt_keeps(b1, b2, "g.min_players <= "@, opt_int(r1.players_max), opt_int(r2.players_max), ""@);
    let d1 = with_opt(c1, "g.top_player_counts @> ARRAY["@, opt_int(r1.top_at), "]::INTEGER[]"@);
    let d2 = with_opt(c2, "g.top_player_counts @> ARRAY["@, opt_int(r2.top_at), "]::INTEGER[]"@);
    lemma_opt_keeps(c1, c2, "g.top_player_counts @> ARRAY["@, opt_int(r1.top_at), opt_int(r2.top_at), "]::INTEGER[]"@);
    lemma_opt_keeps(
        d1,
        d2,
        "g.recommended_player_counts @> ARRAY["@,
        opt_int(r1.recommended_at),
        opt_int(r2.recommended_at),
        "]::INTEGER[]"@,
    );
}

proof fn lemma_playtime_keeps(r1: SearchRequest, r2: SearchRequest, s1: QueryState, s2: QueryState)
    requires
        adds_filters(r1, r2),
        holds_all_of(s1, s2),
    ensures
        holds_all_of(playtime_dimension(r1, s1), playtime_dimension(r2, s2)),
{
    if by_experience(r1) {
        let level = r1.playtime_experience.unwrap()@;
        let x = with_experience(s2, level, r2.playtime_min, r2.playtime_max).conds.last();
        assert(with_experience(s2, level, r2.playtime_min, r2.playtime_max).conds == s2.conds.push(x));
        assert(with_experience(s1, level, r1.playtime_min, r1.playtime_max).conds =~= s1.conds.push(x));
        lemma_subsequence_push_both(s1.conds, s2.conds, x);
    } else if by_experience(r2) {
        let level = r2.playtime_experience.unwrap()@;
        let x = with_experience(s2, level, r2.playtime_min, r2.playtime_max).conds.last();
        assert(with_experience(s2, level, r2.playtime_min, r2.playtime_max).conds == s2.conds.push(x));
        assert(playtime_dimension(r1, s1) == s1);
        lemma_subsequence_push_right(s1.conds, s2.conds, x);
    } else {
        let min_col = if is_community(r1.playtime_source) {
            "g.community_min_playtime"@
        } else {
            "g.min_playtime"@
        };
        let max_col = if is_community(r1.playtime_source) {
            "g.community_max_playtime"@
        } else {
            "g.max_playtime"@
        };
        let a1 = with_opt(s1, max_col + " >= "@, opt_int(r1.playtime_min), ""@);
        let a2 = with_opt(s2, max_col + " >= "@, opt_int(r2.playtime_min), ""@);
        lemma_opt_keeps(s1, s2, max_col + " >= "@, opt_int(r1.playtime_min), opt_int(r2.playtime_min), ""@);
        lemma_opt_keeps(a1, a2, min_col + " <= "@, opt_int(r1.playtime_max), opt_int(r2.playtime_max), ""@);
    }
}

proof fn lemma_age_keeps(r1: SearchRequest, r2: SearchRequest, s1: QueryState, s2: QueryState)
    requires
        adds_filters(r1, r2),
        holds_all_of(s1, s2),
    ensures
        holds_all_of(age_dimension(r1, s1), age_dimension(r2, s2)),
{
    let col = if is_community(r1.age_source) {
        "g.community_suggested_age"@
    } else {
        "g.min_age"@
    };
    let a1 = with_opt(s1, col + " >= "@, opt_int(r1.age_min), ""@);
    let a2 = with_opt(s2, col + " >= "@, opt_int(r2.age_min), ""@);
    lemma_opt_keeps(s1, s2, col + " >= "@, opt_int(r1.age_min), opt_int(r2.age_min), ""@);
    lemma_opt_keeps(a1, a2, col + " <= "@, opt_int(r1.age_max), opt_int(r2.age_max), ""@);
}

proof fn lemma_type_keeps(r1: SearchRequest, r2: SearchRequest, s1: QueryState, s2: QueryState)
    requires
        adds_filters(r1, r2),
        holds_all_of(s1, s2),
    ensures
        holds_all_of(type_dimension(r1, s1), type_dimension(r2, s2)),
{
    let a1 = with_opt_list(s1, "g.type IN ("@, opt_list(r1.game_type), ")"@);
    let a2 = with_opt_list(s2, "g.type IN ("@, opt_list(r2.game_type), ")"@);
    lemma_opt_list_keeps(s1, s2, "g.type IN ("@, opt_list(r1.game_type), opt_list(r2.game_type), ")"@);
    let b1 = with_opt(a1, "g.mode = "@, opt_str(r1.mode), ""@);
    let b2 = with_opt(a2, "g.mode = "@, opt_str(r2.mode), ""@);
    lemma_opt_keeps(a1, a2, "g.mode = "@, opt_str(r1.mode), opt_str(r2.mode), ""@);
    let c1 = with_opt_list(b1, "EXISTS (SELECT 1 FROM game_mechanics gm JOIN mechanics m ON m.id = gm.mechanic_id WHERE gm.game_id = g.id AND m.slug IN ("@, opt_list(r1.mechanics), "))"@);
    let c2 = with_opt_list(b2, "EXISTS (SELECT 1 FROM game_mechanics gm JOIN mechanics m ON m.id = gm.mechanic_id WHERE gm.game_id = g.id AND m.slug IN ("@, opt_list(r2.mechanics), "))"@);
    lemma_opt_list_keeps(b1, b2, "EXISTS (SELECT 1 FROM game_mechanics gm JOIN mechanics m ON m.id = gm.mechanic_id WHERE gm.game_id = g.id AND m.slug IN ("@, opt_list(r1.mechanics), opt_list(r2.mechanics), "))"@);
    let d1 = with_opt_each(c1, "EXISTS (SELECT 1 FROM game_mechanics gm JOIN mechanics m ON m.id = gm.mechanic_id WHERE gm.game_id = g.id AND m.slug = "@, opt_list(r1.mechanics_all), ")"@);
    let d2 = with_opt_each(c2, "EXISTS (SELECT 1 FROM game_mechanics gm JOIN mechanics m ON m.id = gm.mechanic_id WHERE gm.game_id = g.id AND m.slug = "@, opt_list(r2.mechanics_all), ")"@);
    lemma_opt_each_keeps(c1, c2, "EXISTS (SELECT 1 FROM game_mechanics gm JOIN mechanics m ON m.id = gm.mechanic_id WHERE gm.game_id = g.id AND m.slug = "@, opt_list(r1.mechanics_all), opt_list(r2.mechanics_all), ")"@);
    lemma_opt_list_keeps(d1, d2, "NOT EXISTS (SELECT 1 FROM game_mechanics gm JOIN mechanics m ON m.id = gm.mechanic_id WHERE gm.game_id = g.id AND m.slug IN ("@, opt_list(r1.mechanics_not), opt_list(r2.mechanics_not), "))"@);
}

proof fn lemma_theme_keeps(r1: SearchRequest, r2: SearchRequest, s1: QueryState, s2: QueryState)
    requires
        adds_filters(r1, r2),
        holds_all_of(s1, s2),
    ensures
        holds_all_of(theme_dimension(r1, s1), theme_dimension(r2, s2)),
{
    let a1 = with_opt_list(s1, "EXISTS (SELECT 1 FROM game_themes gt JOIN themes t ON t.id = gt.theme_id WHERE gt.game_id = g.id AND t.slug IN ("@, opt_list(r1.themes), "))"@);
    let a2 = with_opt_list(s2, "EXISTS (SELECT 1 FROM game_themes gt JOIN themes t ON t.id = gt.theme_id WHERE gt.game_id = g.id AND t.slug IN ("@, opt_list(r2.themes), "))"@);
    lemma_opt_list_keeps(s1, s2, "EXISTS (SELECT 1 FROM game_themes gt JOIN themes t ON t.id = gt.theme_id WHERE gt.game_id = g.id AND t.slug IN ("@, opt_list(r1.themes), opt_list(r2.themes), "))"@);
    lemma_opt_list_keeps(a1, a2, "NOT EXISTS (SELECT 1 FROM game_themes gt JOIN themes t ON t.id = gt.theme_id WHERE gt.game_id = g.id AND t.slug IN ("@, opt_list(r1.theme_not), opt_list(r2.theme_not), "))"@);
}

proof fn lemma_metadata_keeps(r1: SearchRequest, r2: SearchRequest, s1: QueryState, s2: QueryState)
    requires
        adds_filters(r1, r2),
        holds_all_of(s1, s2),
    ensures
        holds_all_of(metadata_dimension(r1, s1), metadata_dimension(r2, s2)),
{
    let a1 = with_opt(s1, "EXISTS (SELECT 1 FROM game_credits gc JOIN people p ON p.id = gc.person_id WHERE gc.game_id = g.id AND gc.role = 'designer' AND p.slug = "@, opt_str(r1.designer), ")"@);
    let a2 = with_opt(s2, "EXISTS (SELECT 1 FROM game_credits gc JOIN people p ON p.id = gc.person_id WHERE gc.game_id = g.id AND gc.role = 'designer' AND p.slug = "@, opt_str(r2.designer), ")"@);
    lemma_opt_keeps(s1, s2, "EXISTS (SELECT 1 FROM game_credits gc JOIN people p ON p.id = gc.person_id WHERE gc.game_id = g.id AND gc.role = 'designer' AND p.slug = "@, opt_str(r1.designer), opt_str(r2.designer), ")"@);
    let b1 = with_opt(a1, "EXISTS (SELECT 1 FROM game_editions ge JOIN edition_publishers ep ON ep.edition_id = ge.id JOIN publishers pub ON pub.id = ep.publisher_id WHERE ge.game_id = g.id AND pub.slug = "@, opt_str(r1.publisher), ")"@);
    let b2 = with_opt(a2, "EXISTS (SELECT 1 FROM game_editions ge JOIN edition_publishers ep ON ep.edition_id = ge.id JOIN publishers pub ON pub.id = ep.publisher_id WHERE ge.game_id = g.id AND pub.slug = "@, opt_str(r2.publisher), ")"@);
    lemma_opt_keeps(a1, a2, "EXISTS (SELECT 1 FROM game_editions ge JOIN edition_publishers ep ON ep.edition_id = ge.id JOIN publishers pub ON pub.id = ep.publisher_id WHERE ge.game_id = g.id AND pub.slug = "@, opt_str(r1.publisher), opt_str(r2.publisher), ")"@);
    let c1 = with_opt(b1, "EXISTS (SELECT 1 FROM game_categories gc JOIN categories c ON c.id = gc.category_id WHERE gc.game_id = g.id AND c.slug = "@, opt_str(r1.category), ")"@);
    let c2 = with_opt(b2, "EXISTS (SELECT 1 FROM game_categories gc JOIN categories c ON c.id = gc.category_id WHERE gc.game_id = g.id AND c.slug = "@, opt_str(r2.category), ")"@);
    lemma_opt_keeps(b1, b2, "EXISTS (SELECT 1 FROM game_categories gc JOIN categories c ON c.id = gc.category_id WHERE gc.game_id = g.id AND c.slug = "@, opt_str(r1.category), opt_str(r2.category), ")"@);
    let d1 = with_opt(c1, "g.year_published >= "@, opt_int(r1.year_min), ""@);
    let d2 = with_opt(c2, "g.year_published >= "@, opt_int(r2.year_min), ""@);
    lemma_opt_keeps(c1, c2, "g.year_published >= "@, opt_int(r1.year_min), opt_int(r2.year_min), ""@);
    lemma_opt_keeps(d1, d2, "g.year_published <= "@, opt_int(r1.year_max), opt_int(r2.year_max), ""@);
}

/// Asking more of a search only adds conditions: when `r2` gives every
/// filter that `r1` gives, and possibly more, each condition of `r1`, with
/// its values in place, is a condition of `r2`, in the same order. The
/// count query joins these conditions with AND.
pub proof fn lemma_more_filters_only_add_conditions(r1: SearchRequest, r2: SearchRequest)
    requires
        adds_filters(r1, r2),
    ensures
        is_subsequence(filter_meaning(r1), filter_meaning(r2)),
{
    let s0 = no_conditions(true);
    lemma_empty_is_subsequence(s0.conds);
    assert(s0.conds =~= seq![]);
    lemma_rating_keeps(r1, r2, s0, s0);
    let a1 = rating_dimension(r1, s0);
    let a2 = rating_dimension(r2, s0);
    lemma_weight_keeps(r1, r2, a1, a2);
    let b1 = weight_dimension(r1, a1);
    let b2 = weight_dimension(r2, a2);
    lemma_players_keeps(r1, r2, b1, b2);
    let c1 = players_dimension(r1, b1);
    let c2 = players_dimension(r2, b2);
    lemma_playtime_keeps(r1, r2, c1, c2);
    let d1 = playtime_dimension(r1, c1);
    let d2 = playtime_dimension(r2, c2);
    lemma_age_keeps(r1, r2, d1, d2);
    let e1 = age_dimension(r1, d1);
    let e2 = age_dimension(r2, d2);
    lemma_type_keeps(r1, r2, e1, e2);
    let f1 = type_dimension(r1, e1);
    let f2 = type_dimension(r2, e2);
    lemma_theme_keeps(r1, r2, f1, f2);
    lemma_metadata_keeps(r1, r2, theme_dimension(r1, f1), theme_dimension(r2, f2));
}

proof fn lemma_each_conds(st: QueryState, prefix: Seq<char>, vals: Seq<Seq<char>>, suffix: Seq<char>)
    ensures
        with_each(st, prefix, vals, suffix).conds.len() == st.conds.len() + vals.len(),
        with_each(st, prefix, vals, suffix).valued == st.valued,
    decreases vals.len(),
{
    if vals.len() > 0 {
        lemma_each_conds(st, prefix, vals.drop_last(), suffix);
    }
}

proof fn lemma_type_same_count(r: SearchRequest, s1: QueryState, s2: QueryState)
    requires
        s1.conds.len() == s2.conds.len(),
    ensures
        type_dimension(r, s1).conds.len() == type_dimension(r, s2).conds.len(),
{
    let m2 =
        "EXISTS (SELECT 1 FROM game_mechanics gm JOIN mechanics m ON m.id = gm.mechanic_id WHERE gm.game_id = g.id AND m.slug = "@;
    let m1 =
        "EXISTS (SELECT 1 FROM game_mechanics gm JOIN mechanics m ON m.id = gm.mechanic_id WHERE gm.game_id = g.id AND m.slug IN ("@;
    let c1 = with_opt_list(
        with_opt(with_opt_list(s1, "g.type IN ("@, opt_list(r.game_type), ")"@), "g.mode = "@, opt_str(r.mode), ""@),
        m1,
        opt_list(r.mechanics),
        "))"@,
    );
    let c2 = with_opt_list(
        with_opt(with_opt_list(s2, "g.type IN ("@, opt_list(r.game_type), ")"@), "g.mode = "@, opt_str(r.mode), ""@),
        m1,
        opt_list(r.mechanics),
        "))"@,
    );
    assert(c1.conds.len() == c2.conds.len());
    match opt_list(r.mechanics_all) {
        Some(v) => {
            lemma_each_conds(c1, m2, v, ")"@);
            lemma_each_conds(c2, m2, v, ")"@);
        },
        None => {},
    }
}

proof fn lemma_rating_same_count(r: SearchRequest, s1: QueryState, s2: QueryState)
    requires
        s1.conds.len() == s2.conds.len(),
    ensures
        rating_dimension(r, s1).conds.len() == rating_dimension(r, s2).conds.len(),
{
}

proof fn lemma_weight_same_count(r: SearchRequest, s1: QueryState, s2: QueryState)
    requires
        s1.conds.len() == s2.conds.len(),
    ensures
        weight_dimension(r, s1).conds.len() == weight_dimension(r, s2).conds.len(),
{
}

proof fn lemma_players_same_count(r: SearchRequest, s1: QueryState, s2: QueryState)
    requires
        s1.conds.len() == s2.conds.len(),
    ensures
        players_dimension(r, s1).conds.len() == players_dimension(r, s2).conds.len(),
{
}

proof fn lemma_playtime_same_count(r: SearchRequest, s1: QueryState, s2: QueryState)
    requires
        s1.conds.len() == s2.conds.len(),
    ensures
        playtime_dimension(r, s1).conds.len() == playtime_dimension(r, s2).conds.len(),
{
}

proof fn lemma_age_same_count(r: SearchRequest, s1: QueryState, s2: QueryState)
    requires
        s1.conds.len() == s2.conds.len(),
    ensures
        age_dimension(r, s1).conds.len() == age_dimension(r, s2).conds.len(),
{
}

proof fn lemma_theme_same_count(r: SearchRequest, s1: QueryState, s2: QueryState)
    requires
        s1.conds.len() == s2.conds.len(),
    ensures
        theme_dimension(r, s1).conds.len() == theme_dimension(r, s2).conds.len(),
{
}

proof fn lemma_metadata_same_count(r: SearchRequest, s1: QueryState, s2: QueryState)
    requires
        s1.conds.len() == s2.conds.len(),
    ensures
        metadata_dimension(r, s1).conds.len() == metadata_dimension(r, s2).conds.len(),
{
}

/// Each dimension adds as many conditions whether values are written in
/// place or as placeholders.
proof fn lemma_dimensions_same_count(r: SearchRequest, s1: QueryState, s2: QueryState)
    requires
        s1.conds.len() == s2.conds.len(),
    ensures
        rating_dimension(r, s1).conds.len() == rating_dimension(r, s2).conds.len(),
        weight_dimension(r, s1).conds.len() == weight_dimension(r, s2).conds.len(),
        players_dimension(r, s1).conds.len() == players_dimension(r, s2).conds.len(),
        playtime_dimension(r, s1).conds.len() == playtime_dimension(r, s2).conds.len(),
        age_dimension(r, s1).conds.len() == age_dimension(r, s2).conds.len(),
        type_dimension(r, s1).conds.len() == type_dimension(r, s2).conds.len(),
        theme_dimension(r, s1).conds.len() == theme_dimension(r, s2).conds.len(),
        metadata_dimension(r, s1).conds.len() == metadata_dimension(r, s2).conds.len(),
{
    lemma_rating_same_count(r, s1, s2);
    lemma_weight_same_count(r, s1, s2);
    lemma_players_same_count(r, s1, s2);
    lemma_playtime_same_count(r, s1, s2);
    lemma_age_same_count(r, s1, s2);
    lemma_type_same_count(r, s1, s2);
    lemma_theme_same_count(r, s1, s2);
    lemma_metadata_same_count(r, s1, s2);
}

/// The meaning of a search's filters has one condition for each condition
/// of the query sent: the two differ only in how the bound values are
/// written.
pub proof fn lemma_meaning_matches_query(r: SearchRequest)
    ensures
        filter_meaning(r).len() == search_filters(r).conds.len(),
{
    let t0 = no_conditions(true);
    let f0 = no_conditions(false);
    lemma_dimensions_same_count(r, t0, f0);
    let t1 = rating_dimension(r, t0);
    let f1 = rating_dimension(r, f0);
    lemma_dimensions_same_count(r, t1, f1);
    let t2 = weight_dimension(r, t1);
    let f2 = weight_dimension(r, f1);
    lemma_dimensions_same_count(r, t2, f2);
    let t3 = players_dimension(r, t2);
    let f3 = players_dimension(r, f2);
    lemma_dimensions_same_count(r, t3, f3);
    let t4 = playtime_dimension(r, t3);
    let f4 = playtime_dimension(r, f3);
    lemma_dimensions_same_count(r, t4, f4);
    let t5 = age_dimension(r, t4);
    let f5 = age_dimension(r, f4);
    lemma_dimensions_same_count(r, t5, f5);
    let t6 = type_dimension(r, t5);
    let f6 = type_dimension(r, f5);
    lemma_dimensions_same_count(r, t6, f6);
    lemma_dimensions_same_count(r, theme_dimension(r, t6), theme_dimension(r, f6));
}

/// The same search without any filter value (the effective mode, the
/// play-time and age sources, the order and the page kept).
pub open spec fn without_filters(r: SearchRequest) -> SearchRequest {
    SearchRequest {
        rating_min: None,
        rating_max: None,
        min_rating_votes: None,
        confidence_min: None,
        weight_min: None,
        weight_max: None,
        players: None,
        players_min: None,
        players_max: None,
        top_at: None,
        recommended_at: None,
        playtime_min: None,
        playtime_max: None,
        age_min: None,
        age_max: None,
        game_type: None,
        mode: None,
        mechanics: None,
        mechanics_all: None,
        mechanics_not: None,
        themes: None,
        theme_not: None,
        designer: None,
        publisher: None,
        category: None,
        year_min: None,
        year_max: None,
        ..r
    }
}

/// A condition that a search with one filter asks is asked by every search
/// that gives that filter and possibly more.
proof fn lemma_condition_kept(r1: SearchRequest, r: SearchRequest, c: Seq<char>)
    requires
        adds_filters(r1, r),
        filter_meaning(r1).contains(c),
    ensures
        filter_meaning(r).contains(c),
{
    lemma_more_filters_only_add_conditions(r1, r);
    let idx = choose|idx: Seq<int>| embeds(idx, filter_meaning(r1), filter_meaning(r));
    let k = choose|k: int| 0 <= k < filter_meaning(r1).len() && filter_meaning(r1)[k] == c;
    assert(filter_meaning(r)[idx[k]] == c);
}

/// A dimension none of whose filters is given adds nothing.
proof fn lemma_empty_dimensions(r: SearchRequest, st: QueryState)
    ensures
        r.rating_min is None && r.rating_max is None && r.min_rating_votes is None
            && r.confidence_min is None ==> rating_dimension(r, st) == st,
        r.weight_min is None && r.weight_max is None ==> weight_dimension(r, st) == st,
        r.players is None && r.players_min is None && r.players_max is None && r.top_at is None
            && r.recommended_at is None ==> players_dimension(r, st) == st,
        r.playtime_min is None && r.playtime_max is None ==> playtime_dimension(r, st) == st,
        r.age_min is None && r.age_max is None ==> age_dimension(r, st) == st,
        r.game_type is None && r.mode is None && r.mechanics is None && r.mechanics_all is None
            && r.mechanics_not is None ==> type_dimension(r, st) == st,
        r.themes is None && r.theme_not is None ==> theme_dimension(r, st) == st,
        r.designer is None && r.publisher is None && r.category is None && r.year_min is None
            && r.year_max is None ==> metadata_dimension(r, st) == st,
{
}

/// The values of a list, each written in place, separated by commas.
pub open spec fn values_text(vals: Seq<Seq<char>>) -> Seq<char> {
    join(vals.map_values(|t: Seq<char>| value_text(BindView::Str(t))), ", "@)
}

proof fn lemma_rating_min_condition(r: SearchRequest)
    requires
        r.rating_min is Some,
    ensures
        filter_meaning(r).contains("g.rating >= "@ + value_text(BindView::Float(r.rating_min.unwrap()))),
{
    let r1 = SearchRequest { rating_min: r.rating_min, ..without_filters(r) };
    let c = "g.rating >= "@ + value_text(BindView::Float(r.rating_min.unwrap()));
    let s0 = no_conditions(true);
    let a = rating_dimension(r1, s0);
    reveal_strlit("");
    assert(a.conds =~= seq![c]);
    lemma_empty_dimensions(r1, a);
    lemma_empty_dimensions(r1, s0);
    assert(filter_meaning(r1) =~= seq![c]);
    assert(filter_meaning(r1)[0] == c);
    lemma_condition_kept(r1, r, c);
}

proof fn lemma_rating_max_condition(r: SearchRequest)
    requires
        r.rating_max is Some,
    ensures
        filter_meaning(r).contains("g.rating <= "@ + value_text(BindView::Float(r.rating_max.unwrap()))),
{
    let r1 = SearchRequest { rating_max: r.rating_max, ..without_filters(r) };
    let c = "g.rating <= "@ + value_text(BindView::Float(r.rating_max.unwrap()));
    let s0 = no_conditions(true);
    let a = rating_dimension(r1, s0);
    reveal_strlit("");
    assert(a.conds =~= seq![c]);
    lemma_empty_dimensions(r1, a);
    lemma_empty_dimensions(r1, s0);
    assert(filter_meaning(r1) =~= seq![c]);
    assert(filter_meaning(r1)[0] == c);
    lemma_condition_kept(r1, r, c);
}

proof fn lemma_min_rating_votes_condition(r: SearchRequest)
    requires
        r.min_rating_votes is Some,
    ensures
        filter_meaning(r).contains("g.rating_votes >= "@ + value_text(BindView::Int(r.min_rating_votes.unwrap()))),
{
    let r1 = SearchRequest { min_rating_votes: r.min_rating_votes, ..without_filters(r) };
    let c = "g.rating_votes >= "@ + value_text(BindView::Int(r.min_rating_votes.unwrap()));
    let s0 = no_conditions(true);
    let a = rating_dimension(r1, s0);
    reveal_strlit("");
    assert(a.conds =~= seq![c]);
    lemma_empty_dimensions(r1, a);
    lemma_empty_dimensions(r1, s0);
    assert(filter_meaning(r1) =~= seq![c]);
    assert(filter_meaning(r1)[0] == c);
    lemma_condition_kept(r1, r, c);
}

proof fn lemma_confidence_min_condition(r: SearchRequest)
    requires
        r.confidence_min is Some,
    ensures
        filter_meaning(r).contains("g.rating_confidence >= "@ + value_text(BindView::Float(r.confidence_min.unwrap()))),
{
    let r1 = SearchRequest { confidence_min: r.confidence_min, ..without_filters(r) };
    let c = "g.rating_confidence >= "@ + value_text(BindView::Float(r.confidence_min.unwrap()));
    let s0 = no_conditions(true);
    let a = rating_dimension(r1, s0);
    reveal_strlit("");
    assert(a.conds =~= seq![c]);
    lemma_empty_dimensions(r1, a);
    lemma_empty_dimensions(r1, s0);
    assert(filter_meaning(r1) =~= seq![c]);
    assert(filter_meaning(r1)[0] == c);
    lemma_condition_kept(r1, r, c);
}

proof fn lemma_weight_min_condition(r: SearchRequest)
    requires
        r.weight_min is Some,
    ensures
        filter_meaning(r).contains("g.weight >= "@ + value_text(BindView::Float(r.weight_min.unwrap()))),
{
    let r1 = SearchRequest { weight_min: r.weight_min, ..without_filters(r) };
    let c = "g.weight >= "@ + value_text(BindView::Float(r.weight_min.unwrap()));
    let s0 = no_conditions(true);
    let a = weight_dimension(r1, s0);
    reveal_strlit("");
    assert(a.conds =~= seq![c]);
    lemma_empty_dimensions(r1, a);
    lemma_empty_dimensions(r1, s0);
    assert(filter_meaning(r1) =~= seq![c]);
    assert(filter_meaning(r1)[0] == c);
    lemma_condition_kept(r1, r, c);
}

proof fn lemma_weight_max_condition(r: SearchRequest)
    requires
        r.weight_max is Some,
    ensures
        filter_meaning(r).contains("g.weight <= "@ + value_text(BindView::Float(r.weight_max.unwrap()))),
{
    let r1 = SearchRequest { weight_max: r.weight_max, ..without_filters(r) };
    let c = "g.weight <= "@ + value_text(BindView::Float(r.weight_max.unwrap()));
    let s0 = no_conditions(true);
    let a = weight_dimension(r1, s0);
    reveal_strlit("");
    assert(a.conds =~= seq![c]);
    lemma_empty_dimensions(r1, a);
    lemma_empty_dimensions(r1, s0);
    assert(filter_meaning(r1) =~= seq![c]);
    assert(filter_meaning(r1)[0] == c);
    lemma_condition_kept(r1, r, c);
}

proof fn lemma_players_condition(r: SearchRequest)
    requires
        r.players is Some,
        !search_effective(r),
    ensures
        filter_meaning(r).contains("g.min_players <= "@ + value_text(BindView::Int(r.players.unwrap())) + " AND g.max_players >= "@ + value_text(BindView::Int(r.players.unwrap()))),
{
    let r1 = SearchRequest { players: r.players, ..without_filters(r) };
    let c = "g.min_players <= "@ + value_text(BindView::Int(r.players.unwrap())) + " AND g.max_players >= "@ + value_text(BindView::Int(r.players.unwrap()));
    let s0 = no_conditions(true);
    let a = players_dimension(r1, s0);
    reveal_strlit("");
    assert(a.conds =~= seq![c]);
    lemma_empty_dimensions(r1, a);
    lemma_empty_dimensions(r1, s0);
    assert(filter_meaning(r1) =~= seq![c]);
    assert(filter_meaning(r1)[0] == c);
    lemma_condition_kept(r1, r, c);
}

proof fn lemma_players_min_condition(r: SearchRequest)
    requires
        r.players_min is Some,
    ensures
        filter_meaning(r).contains("g.max_players >= "@ + value_text(BindView::Int(r.players_min.unwrap()))),
{
    let r1 = SearchRequest { players_min: r.players_min, ..without_filters(r) };
    let c = "g.max_players >= "@ + value_text(BindView::Int(r.players_min.unwrap()));
    let s0 = no_conditions(true);
    let a = players_dimension(r1, s0);
    reveal_strlit("");
    assert(a.conds =~= seq![c]);
    lemma_empty_dimensions(r1, a);
    lemma_empty_dimensions(r1, s0);
    assert(filter_meaning(r1) =~= seq![c]);
    assert(filter_meaning(r1)[0] == c);
    lemma_condition_kept(r1, r, c);
}

proof fn lemma_players_max_condition(r: SearchRequest)
    requires
        r.players_max is Some,
    ensures
        filter_meaning(r).contains("g.min_players <= "@ + value_text(BindView::Int(r.players_max.unwrap()))),
{
    let r1 = SearchRequest { players_max: r.players_max, ..without_filters(r) };
    let c = "g.min_players <= "@ + value_text(BindView::Int(r.players_max.unwrap()));
    let s0 = no_conditions(true);
    let a = players_dimension(r1, s0);
    reveal_strlit("");
    assert(a.conds =~= seq![c]);
    lemma_empty_dimensions(r1, a);
    lemma_empty_dimensions(r1, s0);
    assert(filter_meaning(r1) =~= seq![c]);
    assert(filter_meaning(r1)[0] == c);
    lemma_condition_kept(r1, r, c);
}

proof fn lemma_top_at_condition(r: SearchRequest)
    requires
        r.top_at is Some,
    ensures
        filter_meaning(r).contains("g.top_player_counts @> ARRAY["@ + value_text(BindView::Int(r.top_at.unwrap())) + "]::INTEGER[]"@),
{
    let r1 = SearchRequest { top_at: r.top_at, ..without_filters(r) };
    let c = "g.top_player_counts @> ARRAY["@ + value_text(BindView::Int(r.top_at.unwrap())) + "]::INTEGER[]"@;
    let s0 = no_conditions(true);
    let a = players_dimension(r1, s0);
    reveal_strlit("");
    assert(a.conds =~= seq![c]);
    lemma_empty_dimensions(r1, a);
    lemma_empty_dimensions(r1, s0);
    assert(filter_meaning(r1) =~= seq![c]);
    assert(filter_meaning(r1)[0] == c);
    lemma_condition_kept(r1, r, c);
}

proof fn lemma_recommended_at_condition(r: SearchRequest)
    requires
        r.recommended_at is Some,
    ensures
        filter_meaning(r).contains("g.recommended_player_counts @> ARRAY["@ + value_text(BindView::Int(r.recommended_at.unwrap())) + "]::INTEGER[]"@),
{
    let r1 = SearchRequest { recommended_at: r.recommended_at, ..without_filters(r) };
    let c = "g.recommended_player_counts @> ARRAY["@ + value_text(BindView::Int(r.recommended_at.unwrap())) + "]::INTEGER[]"@;
    let s0 = no_conditions(true);
    let a = players_dimension(r1, s0);
    reveal_strlit("");
    assert(a.conds =~= seq![c]);
    lemma_empty_dimensions(r1, a);
    lemma_empty_dimensions(r1, s0);
    assert(filter_meaning(r1) =~= seq![c]);
    assert(filter_meaning(r1)[0] == c);
    lemma_condition_kept(r1, r, c);
}

proof fn lemma_playtime_min_condition(r: SearchRequest)
    requires
        r.playtime_min is Some,
        r.playtime_experience is None,
    ensures
        filter_meaning(r).contains((if is_community(r.playtime_source) { "g.community_max_playtime"@ } else { "g.max_playtime"@ }) + " >= "@ + value_text(BindView::Int(r.playtime_min.unwrap()))),
{
    let r1 = SearchRequest { playtime_min: r.playtime_min, ..without_filters(r) };
    let c = (if is_community(r.playtime_source) { "g.community_max_playtime"@ } else { "g.max_playtime"@ }) + " >= "@ + value_text(BindView::Int(r.playtime_min.unwrap()));
    let s0 = no_conditions(true);
    let a = playtime_dimension(r1, s0);
    reveal_strlit("");
    assert(a.conds =~= seq![c]);
    lemma_empty_dimensions(r1, a);
    lemma_empty_dimensions(r1, s0);
    assert(filter_meaning(r1) =~= seq![c]);
    assert(filter_meaning(r1)[0] == c);
    lemma_condition_kept(r1, r, c);
}

proof fn lemma_playtime_max_condition(r: SearchRequest)
    requires
        r.playtime_max is Some,
        r.playtime_experience is None,
    ensures
        filter_meaning(r).contains((if is_community(r.playtime_source) { "g.community_min_playtime"@ } else { "g.min_playtime"@ }) + " <= "@ + value_text(BindView::Int(r.playtime_max.unwrap()))),
{
    let r1 = SearchRequest { playtime_max: r.playtime_max, ..without_filters(r) };
    let c = (if is_community(r.playtime_source) { "g.community_min_playtime"@ } else { "g.min_playtime"@ }) + " <= "@ + value_text(BindView::Int(r.playtime_max.unwrap()));
    let s0 = no_conditions(true);
    let a = playtime_dimension(r1, s0);
    reveal_strlit("");
    assert(a.conds =~= seq![c]);
    lemma_empty_dimensions(r1, a);
    lemma_empty_dimensions(r1, s0);
    assert(filter_meaning(r1) =~= seq![c]);
    assert(filter_meaning(r1)[0] == c);
    lemma_condition_kept(r1, r, c);
}

proof fn lemma_age_min_condition(r: SearchRequest)
    requires
        r.age_min is Some,
    ensures
        filter_meaning(r).contains((if is_community(r.age_source) { "g.community_suggested_age"@ } else { "g.min_age"@ }) + " >= "@ + value_text(BindView::Int(r.age_min.unwrap()))),
{
    let r1 = SearchRequest { age_min: r.age_min, ..without_filters(r) };
    let c = (if is_community(r.age_source) { "g.community_suggested_age"@ } else { "g.min_age"@ }) + " >= "@ + value_text(BindView::Int(r.age_min.unwrap()));
    let s0 = no_conditions(true);
    let a = age_dimension(r1, s0);
    reveal_strlit("");
    assert(a.conds =~= seq![c]);
    lemma_empty_dimensions(r1, a);
    lemma_empty_dimensions(r1, s0);
    assert(filter_meaning(r1) =~= seq![c]);
    assert(filter_meaning(r1)[0] == c);
    lemma_condition_kept(r1, r, c);
}

proof fn lemma_age_max_condition(r: SearchRequest)
    requires
        r.age_max is Some,
    ensures
        filter_meaning(r).contains((if is_community(r.age_source) { "g.community_suggested_age"@ } else { "g.min_age"@ }) + " <= "@ + value_text(BindView::Int(r.age_max.unwrap()))),
{
    let r1 = SearchRequest { age_max: r.age_max, ..without_filters(r) };
    let c = (if is_community(r.age_source) { "g.community_suggested_age"@ } else { "g.min_age"@ }) + " <= "@ + value_text(BindView::Int(r.age_max.unwrap()));
    let s0 = no_conditions(true);
    let a = age_dimension(r1, s0);
    reveal_strlit("");
    assert(a.conds =~= seq![c]);
    lemma_empty_dimensions(r1, a);
    lemma_empty_dimensions(r1, s0);
    assert(filter_meaning(r1) =~= seq![c]);
    assert(filter_meaning(r1)[0] == c);
    lemma_condition_kept(r1, r, c);
}

proof fn lemma_mode_condition(r: SearchRequest)
    requires
        r.mode is Some,
    ensures
        filter_meaning(r).contains("g.mode = "@ + value_text(BindView::Str(r.mode.unwrap()@))),
{
    let r1 = SearchRequest { mode: r.mode, ..without_filters(r) };
    let c = "g.mode = "@ + value_text(BindView::Str(r.mode.unwrap()@));
    let s0 = no_conditions(true);
    let a = type_dimension(r1, s0);
    reveal_strlit("");
    assert(a.conds =~= seq![c]);
    lemma_empty_dimensions(r1, a);
    lemma_empty_dimensions(r1, s0);
    assert(filter_meaning(r1) =~= seq![c]);
    assert(filter_meaning(r1)[0] == c);
    lemma_condition_kept(r1, r, c);
}

proof fn lemma_designer_condition(r: SearchRequest)
    requires
        r.designer is Some,
    ensures
        filter_meaning(r).contains("EXISTS (SELECT 1 FROM game_credits gc JOIN people p ON p.id = gc.person_id WHERE gc.game_id = g.id AND gc.role = 'designer' AND p.slug = "@ + value_text(BindView::Str(r.designer.unwrap()@)) + ")"@),
{
    let r1 = SearchRequest { designer: r.designer, ..without_filters(r) };
    let c = "EXISTS (SELECT 1 FROM game_credits gc JOIN people p ON p.id = gc.person_id WHERE gc.game_id = g.id AND gc.role = 'designer' AND p.slug = "@ + value_text(BindView::Str(r.designer.unwrap()@)) + ")"@;
    let s0 = no_conditions(true);
    let a = metadata_dimension(r1, s0);
    reveal_strlit("");
    assert(a.conds =~= seq![c]);
    lemma_empty_dimensions(r1, a);
    lemma_empty_dimensions(r1, s0);
    assert(filter_meaning(r1) =~= seq![c]);
    assert(filter_meaning(r1)[0] == c);
    lemma_condition_kept(r1, r, c);
}

proof fn lemma_publisher_condition(r: SearchRequest)
    requires
        r.publisher is Some,
    ensures
        filter_meaning(r).contains("EXISTS (SELECT 1 FROM game_editions ge JOIN edition_publishers ep ON ep.edition_id = ge.id JOIN publishers pub ON pub.id = ep.publisher_id WHERE ge.game_id = g.id AND pub.slug = "@ + value_text(BindView::Str(r.publisher.unwrap()@)) + ")"@),
{
    let r1 = SearchRequest { publisher: r.publisher, ..without_filters(r) };
    let c = "EXISTS (SELECT 1 FROM game_editions ge JOIN edition_publishers ep ON ep.edition_id = ge.id JOIN publishers pub ON pub.id = ep.publisher_id WHERE ge.game_id = g.id AND pub.slug = "@ + value_text(BindView::Str(r.publisher.unwrap()@)) + ")"@;
    let s0 = no_conditions(true);
    let a = metadata_dimension(r1, s0);
    reveal_strlit("");
    assert(a.conds =~= seq![c]);
    lemma_empty_dimensions(r1, a);
    lemma_empty_dimensions(r1, s0);
    assert(filter_meaning(r1) =~= seq![c]);
    assert(filter_meaning(r1)[0] == c);
    lemma_condition_kept(r1, r, c);
}

proof fn lemma_category_condition(r: SearchRequest)
    requires
        r.category is Some,
    ensures
        filter_meaning(r).contains("EXISTS (SELECT 1 FROM game_categories gc JOIN categories c ON c.id = gc.category_id WHERE gc.game_id = g.id AND c.slug = "@ + value_text(BindView::Str(r.category.unwrap()@)) + ")"@),
{
    let r1 = SearchRequest { category: r.category, ..without_filters(r) };
    let c = "EXISTS (SELECT 1 FROM game_categories gc JOIN categories c ON c.id = gc.category_id WHERE gc.game_id = g.id AND c.slug = "@ + value_text(BindView::Str(r.category.unwrap()@)) + ")"@;
    let s0 = no_conditions(true);
    let a = metadata_dimension(r1, s0);
    reveal_strlit("");
    assert(a.conds =~= seq![c]);
    lemma_empty_dimensions(r1, a);
    lemma_empty_dimensions(r1, s0);
    assert(filter_meaning(r1) =~= seq![c]);
    assert(filter_meaning(r1)[0] == c);
    lemma_condition_kept(r1, r, c);
}

proof fn lemma_year_min_condition(r: SearchRequest)
    requires
        r.year_min is Some,
    ensures
        filter_meaning(r).contains("g.year_published >= "@ + value_text(BindView::Int(r.year_min.unwrap()))),
{
    let r1 = SearchRequest { year_min: r.year_min, ..without_filters(r) };
    let c = "g.year_published >= "@ + value_text(BindView::Int(r.year_min.unwrap()));
    let s0 = no_conditions(true);
    let a = metadata_dimension(r1, s0);
    reveal_strlit("");
    assert(a.conds =~= seq![c]);
    lemma_empty_dimensions(r1, a);
    lemma_empty_dimensions(r1, s0);
    assert(filter_meaning(r1) =~= seq![c]);
    assert(filter_meaning(r1)[0] == c);
    lemma_condition_kept(r1, r, c);
}

proof fn lemma_year_max_condition(r: SearchRequest)
    requires
        r.year_max is Some,
    ensures
        filter_meaning(r).contains("g.year_published <= "@ + value_text(BindView::Int(r.year_max.unwrap()))),
{
    let r1 = SearchRequest { year_max: r.year_max, ..without_filters(r) };
    let c = "g.year_published <= "@ + value_text(BindView::Int(r.year_max.unwrap()));
    let s0 = no_conditions(true);
    let a = metadata_dimension(r1, s0);
    reveal_strlit("");
    assert(a.conds =~= seq![c]);
    lemma_empty_dimensions(r1, a);
    lemma_empty_dimensions(r1, s0);
    assert(filter_meaning(r1) =~= seq![c]);
    assert(filter_meaning(r1)[0] == c);
    lemma_condition_kept(r1, r, c);
}

proof fn lemma_game_type_condition(r: SearchRequest)
    requires
        r.game_type is Some,
    ensures
        filter_meaning(r).contains("g.type IN ("@ + values_text(views(r.game_type.unwrap()@)) + ")"@),
{
    let r1 = SearchRequest { game_type: r.game_type, ..without_filters(r) };
    let c = "g.type IN ("@ + values_text(views(r.game_type.unwrap()@)) + ")"@;
    let s0 = no_conditions(true);
    let a = type_dimension(r1, s0);
    reveal_strlit("");
    assert(list_slots(s0, views(r.game_type.unwrap()@)) =~= views(r.game_type.unwrap()@).map_values(|t: Seq<char>| value_text(BindView::Str(t))));
    assert(a.conds =~= seq![c]);
    lemma_empty_dimensions(r1, a);
    lemma_empty_dimensions(r1, s0);
    assert(filter_meaning(r1) =~= seq![c]);
    assert(filter_meaning(r1)[0] == c);
    lemma_condition_kept(r1, r, c);
}

proof fn lemma_mechanics_condition(r: SearchRequest)
    requires
        r.mechanics is Some,
    ensures
        filter_meaning(r).contains("EXISTS (SELECT 1 FROM game_mechanics gm JOIN mechanics m ON m.id = gm.mechanic_id WHERE gm.game_id = g.id AND m.slug IN ("@ + values_text(views(r.mechanics.unwrap()@)) + "))"@),
{
    let r1 = SearchRequest { mechanics: r.mechanics, ..without_filters(r) };
    let c = "EXISTS (SELECT 1 FROM game_mechanics gm JOIN mechanics m ON m.id = gm.mechanic_id WHERE gm.game_id = g.id AND m.slug IN ("@ + values_text(views(r.mechanics.unwrap()@)) + "))"@;
    let s0 = no_conditions(true);
    let a = type_dimension(r1, s0);
    reveal_strlit("");
    assert(list_slots(s0, views(r.mechanics.unwrap()@)) =~= views(r.mechanics.unwrap()@).map_values(|t: Seq<char>| value_text(BindView::Str(t))));
    assert(a.conds =~= seq![c]);
    lemma_empty_dimensions(r1, a);
    lemma_empty_dimensions(r1, s0);
    assert(filter_meaning(r1) =~= seq![c]);
    assert(filter_meaning(r1)[0] == c);
    lemma_condition_kept(r1, r, c);
}

proof fn lemma_mechanics_not_condition(r: SearchRequest)
    requires
        r.mechanics_not is Some,
    ensures
        filter_meaning(r).contains("NOT EXISTS (SELECT 1 FROM game_mechanics gm JOIN mechanics m ON m.id = gm.mechanic_id WHERE gm.game_id = g.id AND m.slug IN ("@ + values_text(views(r.mechanics_not.unwrap()@)) + "))"@),
{
    let r1 = SearchRequest { mechanics_not: r.mechanics_not, ..without_filters(r) };
    let c = "NOT EXISTS (SELECT 1 FROM game_mechanics gm JOIN mechanics m ON m.id = gm.mechanic_id WHERE gm.game_id = g.id AND m.slug IN ("@ + values_text(views(r.mechanics_not.unwrap()@)) + "))"@;
    let s0 = no_conditions(true);
    let a = type_dimension(r1, s0);
    reveal_strlit("");
    assert(list_slots(s0, views(r.mechanics_not.unwrap()@)) =~= views(r.mechanics_not.unwrap()@).map_values(|t: Seq<char>| value_text(BindView::Str(t))));
    assert(a.conds =~= seq![c]);
    lemma_empty_dimensions(r1, a);
    lemma_empty_dimensions(r1, s0);
    assert(filter_meaning(r1) =~= seq![c]);
    assert(filter_meaning(r1)[0] == c);
    lemma_condition_kept(r1, r, c);
}

proof fn lemma_themes_condition(r: SearchRequest)
    requires
        r.themes is Some,
    ensures
        filter_meaning(r).contains("EXISTS (SELECT 1 FROM game_themes gt JOIN themes t ON t.id = gt.theme_id WHERE gt.game_id = g.id AND t.slug IN ("@ + values_text(views(r.themes.unwrap()@)) + "))"@),
{
    let r1 = SearchRequest { themes: r.themes, ..without_filters(r) };
    let c = "EXISTS (SELECT 1 FROM game_themes gt JOIN themes t ON t.id = gt.theme_id WHERE gt.game_id = g.id AND t.slug IN ("@ + values_text(views(r.themes.unwrap()@)) + "))"@;
    let s0 = no_conditions(true);
    let a = theme_dimension(r1, s0);
    reveal_strlit("");
    assert(list_slots(s0, views(r.themes.unwrap()@)) =~= views(r.themes.unwrap()@).map_values(|t: Seq<char>| value_text(BindView::Str(t))));
    assert(a.conds =~= seq![c]);
    lemma_empty_dimensions(r1, a);
    lemma_empty_dimensions(r1, s0);
    assert(filter_meaning(r1) =~= seq![c]);
    assert(filter_meaning(r1)[0] == c);
    lemma_condition_kept(r1, r, c);
}

proof fn lemma_theme_not_condition(r: SearchRequest)
    requires
        r.theme_not is Some,
    ensures
        filter_meaning(r).contains("NOT EXISTS (SELECT 1 FROM game_themes gt JOIN themes t ON t.id = gt.theme_id WHERE gt.game_id = g.id AND t.slug IN ("@ + values_text(views(r.theme_not.unwrap()@)) + "))"@),
{
    let r1 = SearchRequest { theme_not: r.theme_not, ..without_filters(r) };
    let c = "NOT EXISTS (SELECT 1 FROM game_themes gt JOIN themes t ON t.id = gt.theme_id WHERE gt.game_id = g.id AND t.slug IN ("@ + values_text(views(r.theme_not.unwrap()@)) + "))"@;
    let s0 = no_conditions(true);
    let a = theme_dimension(r1, s0);
    reveal_strlit("");
    assert(list_slots(s0, views(r.theme_not.unwrap()@)) =~= views(r.theme_not.unwrap()@).map_values(|t: Seq<char>| value_text(BindView::Str(t))));
    assert(a.conds =~= seq![c]);
    lemma_empty_dimensions(r1, a);
    lemma_empty_dimensions(r1, s0);
    assert(filter_meaning(r1) =~= seq![c]);
    assert(filter_meaning(r1)[0] == c);
    lemma_condition_kept(r1, r, c);
}

proof fn lemma_each_contains(st: QueryState, prefix: Seq<char>, vals: Seq<Seq<char>>, suffix: Seq<char>, j: int)
    requires
        st.valued,
        0 <= j < vals.len(),
    ensures
        with_each(st, prefix, vals, suffix).conds.contains(prefix + value_text(BindView::Str(vals[j])) + suffix),
    decreases vals.len(),
{
    lemma_each_conds(st, prefix, vals.drop_last(), suffix);
    let w = with_each(st, prefix, vals.drop_last(), suffix);
    let all = with_each(st, prefix, vals, suffix);
    if j == vals.len() - 1 {
        assert(all.conds[w.conds.len() as int] == prefix + value_text(BindView::Str(vals[j])) + suffix);
    } else {
        lemma_each_contains(st, prefix, vals.drop_last(), suffix, j);
        let k = choose|k: int| 0 <= k < w.conds.len() && w.conds[k] == prefix + value_text(BindView::Str(vals[j])) + suffix;
        assert(all.conds[k] == w.conds[k]);
    }
}

proof fn lemma_mechanics_all_condition(r: SearchRequest, j: int)
    requires
        r.mechanics_all is Some,
        0 <= j < r.mechanics_all.unwrap()@.len(),
    ensures
        filter_meaning(r).contains("EXISTS (SELECT 1 FROM game_mechanics gm JOIN mechanics m ON m.id = gm.mechanic_id WHERE gm.game_id = g.id AND m.slug = "@ + value_text(BindView::Str(r.mechanics_all.unwrap()@[j]@)) + ")"@),
{
    let r1 = SearchRequest { mechanics_all: r.mechanics_all, ..without_filters(r) };
    let vals = views(r.mechanics_all.unwrap()@);
    let c = "EXISTS (SELECT 1 FROM game_mechanics gm JOIN mechanics m ON m.id = gm.mechanic_id WHERE gm.game_id = g.id AND m.slug = "@ + value_text(BindView::Str(vals[j])) + ")"@;
    let s0 = no_conditions(true);
    lemma_each_contains(s0, "EXISTS (SELECT 1 FROM game_mechanics gm JOIN mechanics m ON m.id = gm.mechanic_id WHERE gm.game_id = g.id AND m.slug = "@, vals, ")"@, j);
    lemma_empty_dimensions(r1, s0);
    let a = type_dimension(r1, s0);
    assert(a == with_each(s0, "EXISTS (SELECT 1 FROM game_mechanics gm JOIN mechanics m ON m.id = gm.mechanic_id WHERE gm.game_id = g.id AND m.slug = "@, vals, ")"@));
    lemma_each_conds(s0, "EXISTS (SELECT 1 FROM game_mechanics gm JOIN mechanics m ON m.id = gm.mechanic_id WHERE gm.game_id = g.id AND m.slug = "@, vals, ")"@);
    lemma_empty_dimensions(r1, a);
    assert(filter_meaning(r1) == a.conds);
    lemma_condition_kept(r1, r, c);
}

/// Each filter that a search gives asks its own condition of every
/// matched game, with the given value in place: a lower bound with `>=`, an
/// upper bound with `<=`, a player count within the game's range, a value
/// list with `IN` (or `NOT IN` by `NOT EXISTS`), each required mechanic in
/// a condition of its own.
pub proof fn lemma_each_filter_asks_its_condition(r: SearchRequest)
    ensures
        r.rating_min is Some ==> filter_meaning(r).contains("g.rating >= "@ + value_text(BindView::Float(r.rating_min.unwrap()))),
        r.rating_max is Some ==> filter_meaning(r).contains("g.rating <= "@ + value_text(BindView::Float(r.rating_max.unwrap()))),
        r.min_rating_votes is Some ==> filter_meaning(r).contains("g.rating_votes >= "@ + value_text(BindView::Int(r.min_rating_votes.unwrap()))),
        r.confidence_min is Some ==> filter_meaning(r).contains("g.rating_confidence >= "@ + value_text(BindView::Float(r.confidence_min.unwrap()))),
        r.weight_min is Some ==> filter_meaning(r).contains("g.weight >= "@ + value_text(BindView::Float(r.weight_min.unwrap()))),
        r.weight_max is Some ==> filter_meaning(r).contains("g.weight <= "@ + value_text(BindView::Float(r.weight_max.unwrap()))),
        r.players is Some && !search_effective(r) ==> filter_meaning(r).contains("g.min_players <= "@ + value_text(BindView::Int(r.players.unwrap())) + " AND g.max_players >= "@ + value_text(BindView::Int(r.players.unwrap()))),
        r.players_min is Some ==> filter_meaning(r).contains("g.max_players >= "@ + value_text(BindView::Int(r.players_min.unwrap()))),
        r.players_max is Some ==> filter_meaning(r).contains("g.min_players <= "@ + value_text(BindView::Int(r.players_max.unwrap()))),
        r.top_at is Some ==> filter_meaning(r).contains("g.top_player_counts @> ARRAY["@ + value_text(BindView::Int(r.top_at.unwrap())) + "]::INTEGER[]"@),
        r.recommended_at is Some ==> filter_meaning(r).contains("g.recommended_player_counts @> ARRAY["@ + value_text(BindView::Int(r.recommended_at.unwrap())) + "]::INTEGER[]"@),
        r.playtime_min is Some && r.playtime_experience is None ==> filter_meaning(r).contains((if is_community(r.playtime_source) { "g.community_max_playtime"@ } else { "g.max_playtime"@ }) + " >= "@ + value_text(BindView::Int(r.playtime_min.unwrap()))),
        r.playtime_max is Some && r.playtime_experience is None ==> filter_meaning(r).contains((if is_community(r.playtime_source) { "g.community_min_playtime"@ } else { "g.min_playtime"@ }) + " <= "@ + value_text(BindView::Int(r.playtime_max.unwrap()))),
        r.age_min is Some ==> filter_meaning(r).contains((if is_community(r.age_source) { "g.community_suggested_age"@ } else { "g.min_age"@ }) + " >= "@ + value_text(BindView::Int(r.age_min.unwrap()))),
        r.age_max is Some ==> filter_meaning(r).contains((if is_community(r.age_source) { "g.community_suggested_age"@ } else { "g.min_age"@ }) + " <= "@ + value_text(BindView::Int(r.age_max.unwrap()))),
        r.mode is Some ==> filter_meaning(r).contains("g.mode = "@ + value_text(BindView::Str(r.mode.unwrap()@))),
        r.designer is Some ==> filter_meaning(r).contains("EXISTS (SELECT 1 FROM game_credits gc JOIN people p ON p.id = gc.person_id WHERE gc.game_id = g.id AND gc.role = 'designer' AND p.slug = "@ + value_text(BindView::Str(r.designer.unwrap()@)) + ")"@),
        r.publisher is Some ==> filter_meaning(r).contains("EXISTS (SELECT 1 FROM game_editions ge JOIN edition_publishers ep ON ep.edition_id = ge.id JOIN publishers pub ON pub.id = ep.publisher_id WHERE ge.game_id = g.id AND pub.slug = "@ + value_text(BindView::Str(r.publisher.unwrap()@)) + ")"@),
        r.category is Some ==> filter_meaning(r).contains("EXISTS (SELECT 1 FROM game_categories gc JOIN categories c ON c.id = gc.category_id WHERE gc.game_id = g.id AND c.slug = "@ + value_text(BindView::Str(r.category.unwrap()@)) + ")"@),
        r.year_min is Some ==> filter_meaning(r).contains("g.year_published >= "@ + value_text(BindView::Int(r.year_min.unwrap()))),
        r.year_max is Some ==> filter_meaning(r).contains("g.year_published <= "@ + value_text(BindView::Int(r.year_max.unwrap()))),
        r.game_type is Some ==> filter_meaning(r).contains("g.type IN ("@ + values_text(views(r.game_type.unwrap()@)) + ")"@),
        r.mechanics is Some ==> filter_meaning(r).contains("EXISTS (SELECT 1 FROM game_mechanics gm JOIN mechanics m ON m.id = gm.mechanic_id WHERE gm.game_id = g.id AND m.slug IN ("@ + values_text(views(r.mechanics.unwrap()@)) + "))"@),
        r.mechanics_not is Some ==> filter_meaning(r).contains("NOT EXISTS (SELECT 1 FROM game_mechanics gm JOIN mechanics m ON m.id = gm.mechanic_id WHERE gm.game_id = g.id AND m.slug IN ("@ + values_text(views(r.mechanics_not.unwrap()@)) + "))"@),
        r.themes is Some ==> filter_meaning(r).contains("EXISTS (SELECT 1 FROM game_themes gt JOIN themes t ON t.id = gt.theme_id WHERE gt.game_id = g.id AND t.slug IN ("@ + values_text(views(r.themes.unwrap()@)) + "))"@),
        r.theme_not is Some ==> filter_meaning(r).contains("NOT EXISTS (SELECT 1 FROM game_themes gt JOIN themes t ON t.id = gt.theme_id WHERE gt.game_id = g.id AND t.slug IN ("@ + values_text(views(r.theme_not.unwrap()@)) + "))"@),
        r.mechanics_all is Some ==> forall|j: int|
            0 <= j < r.mechanics_all.unwrap()@.len() ==> #[trigger] filter_meaning(r).contains(
                "EXISTS (SELECT 1 FROM game_mechanics gm JOIN mechanics m ON m.id = gm.mechanic_id WHERE gm.game_id = g.id AND m.slug = "@
                    + value_text(BindView::Str(r.mechanics_all.unwrap()@[j]@)) + ")"@,
            ),
{
    if r.rating_min is Some {
        lemma_rating_min_condition(r);
    }
    if r.rating_max is Some {
        lemma_rating_max_condition(r);
    }
    if r.min_rating_votes is Some {
        lemma_min_rating_votes_condition(r);
    }
    if r.confidence_min is Some {
        lemma_confidence_min_condition(r);
    }
    if r.weight_min is Some {
        lemma_weight_min_condition(r);
    }
    if r.weight_max is Some {
        lemma_weight_max_condition(r);
    }
    if r.players is Some && !search_effective(r) {
        lemma_players_condition(r);
    }
    if r.players_min is Some {
        lemma_players_min_condition(r);
    }
    if r.players_max is Some {
        lemma_players_max_condition(r);
    }
    if r.top_at is Some {
        lemma_top_at_condition(r);
    }
    if r.recommended_at is Some {
        lemma_recommended_at_condition(r);
    }
    if r.playtime_min is Some && r.playtime_experience is None {
        lemma_playtime_min_condition(r);
    }
    if r.playtime_max is Some && r.playtime_experience is None {
        lemma_playtime_max_condition(r);
    }
    if r.age_min is Some {
        lemma_age_min_condition(r);
    }
    if r.age_max is Some {
        lemma_age_max_condition(r);
    }
    if r.mode is Some {
        lemma_mode_condition(r);
    }
    if r.designer is Some {
        lemma_designer_condition(r);
    }
    if r.publisher is Some {
        lemma_publisher_condition(r);
    }
    if r.category is Some {
        lemma_category_condition(r);
    }
    if r.year_min is Some {
        lemma_year_min_condition(r);
    }
    if r.year_max is Some {
        lemma_year_max_condition(r);
    }
    if r.game_type is Some {
        lemma_game_type_condition(r);
    }
    if r.mechanics is Some {
        lemma_mechanics_condition(r);
    }
    if r.mechanics_not is Some {
        lemma_mechanics_not_condition(r);
    }
    if r.themes is Some {
        lemma_themes_condition(r);
    }
    if r.theme_not is Some {
        lemma_theme_not_condition(r);
    }
    if r.mechanics_all is Some {
        assert forall|j: int| 0 <= j < r.mechanics_all.unwrap()@.len() implies #[trigger] filter_meaning(r).contains(
            "EXISTS (SELECT 1 FROM game_mechanics gm JOIN mechanics m ON m.id = gm.mechanic_id WHERE gm.game_id = g.id AND m.slug = "@
                + value_text(BindView::Str(r.mechanics_all.unwrap()@[j]@)) + ")"@,
        ) by {
            lemma_mechanics_all_condition(r, j);
        }
    }
}

} // verus!
