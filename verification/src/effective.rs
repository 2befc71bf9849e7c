//! Expansion-aware effective properties, resolved in three tiers: an
//! explicit expansion combination, else the summed property deltas of the
//! requested expansions, else the base game alone. Also the `matched_via`
//! metadata of effective-mode list results.
//!
//! Weights are decimals; the library resolves the whole-number properties
//! and which tier applies, and the caller applies the same tier to the weight.

use crate::models::{EffectiveMatchProperties, MatchedExpansion, MatchedVia};
use crate::text::{
    chars_of, is_white_space, push_text, string_of_chars, trim, trim_chars, trim_end, trim_start,
    views,
};
use vstd::prelude::*;

verus! {

/// Query parameters of the effective-properties endpoint: a comma-separated
/// list of expansion slugs.
pub struct EffectiveParams {
    pub with: Option<String>,
}

/// The whole-number properties of a game (or of a game with expansions).
#[derive(Clone, Copy)]
pub struct IntegerProperties {
    pub min_players: Option<i32>,
    pub max_players: Option<i32>,
    pub min_playtime: Option<i32>,
    pub max_playtime: Option<i32>,
    pub min_age: Option<i32>,
}

/// The whole-number properties recorded for an explicit expansion combination.
pub struct CombinationProperties {
    pub effective_min_players: Option<i32>,
    pub effective_max_players: Option<i32>,
    pub effective_playtime_min: Option<i32>,
    pub effective_playtime_max: Option<i32>,
    pub effective_min_age: Option<i32>,
}

/// The whole-number property changes one expansion makes to its base game.
pub struct PropertyDelta {
    pub max_players_delta: Option<i32>,
    pub playtime_min_delta: Option<i32>,
    pub playtime_max_delta: Option<i32>,
    pub min_age_delta: Option<i32>,
}

/// Where the effective properties came from.
pub enum CombinationSource {
    /// Tier 1: an explicit combination of exactly the requested expansions.
    Explicit,
    /// Tier 2: the base game plus the summed deltas of the expansions.
    Computed,
    /// Tier 3: the base game alone.
    BaseOnly,
}

/// The result of the three-tier resolution.
pub struct Resolution {
    pub source: CombinationSource,
    pub effective: IntegerProperties,
}

/// The pieces of the text between commas (as `str::split(',')`: one piece
/// more than there are commas).
pub open spec fn split_commas(s: Seq<char>) -> Seq<Seq<char>>
    decreases s.len(),
{
    if s.len() == 0 {
        seq![seq![]]
    } else {
        let r = split_commas(s.drop_last());
        if s.last() == ',' {
            r.push(seq![])
        } else {
            r.update(r.len() - 1, r.last().push(s.last()))
        }
    }
}

/// The trimmed pieces that are not empty, in order.
pub open spec fn nonempty_trimmed(pieces: Seq<Seq<char>>) -> Seq<Seq<char>>
    decreases pieces.len(),
{
    if pieces.len() == 0 {
        seq![]
    } else {
        let rest = nonempty_trimmed(pieces.drop_last());
        let t = trim(pieces.last());
        if t.len() == 0 {
            rest
        } else {
            rest.push(t)
        }
    }
}

/// The expansion slugs a request names: the comma-separated pieces of
/// `with`, trimmed, without empty ones.
pub open spec fn requested_slugs(p: EffectiveParams) -> Seq<Seq<char>> {
    match p.with {
        Some(w) => nonempty_trimmed(split_commas(w@)),
        None => nonempty_trimmed(split_commas(seq![])),
    }
}

proof fn lemma_split_commas_nonempty(s: Seq<char>)
    ensures
        split_commas(s).len() >= 1,
    decreases s.len(),
{
    if s.len() > 0 {
        lemma_split_commas_nonempty(s.drop_last());
    }
}

/// Pushes the trimmed piece when it is not empty.
fn push_trimmed(out: &mut Vec<String>, piece: &Vec<char>)
    ensures
        views(final(out)@) == if trim(piece@).len() == 0 {
            views(old(out)@)
        } else {
            views(old(out)@).push(trim(piece@))
        },
{
    let t = trim_chars(piece);
    if t.len() > 0 {
        push_text(out, string_of_chars(&t));
    }
}

/// The expansion slugs named by the request: the comma-separated pieces of
/// `with`, trimmed, without empty ones.
pub fn expansion_slugs(p: &EffectiveParams) -> (res: Vec<String>)
    ensures
        views(res@) == requested_slugs(*p),
        forall|i: int| 0 <= i < res@.len() ==> (#[trigger] res@[i])@.len() > 0,
{
    let text: Vec<char> = match &p.with {
        Some(w) => chars_of(w.as_str()),
        None => Vec::new(),
    };
    let ghost s = text@;
    assert(s == match p.with {
        Some(w) => w@,
        None => seq![],
    });
    let mut out: Vec<String> = Vec::new();
    let mut cur: Vec<char> = Vec::new();
    let mut i: usize = 0;
    proof {
        assert(s.take(0) =~= seq![]);
        assert(split_commas(s.take(0)).drop_last() =~= seq![]);
    }
    while i < text.len()
        invariant
            s == text@,
            i <= s.len(),
            split_commas(s.take(i as int)).len() >= 1,
            views(out@) == nonempty_trimmed(split_commas(s.take(i as int)).drop_last()),
            cur@ == split_commas(s.take(i as int)).last(),
        decreases text.len() - i,
    {
        let c = text[i];
        let ghost before = split_commas(s.take(i as int));
        assert(s.take(i + 1).drop_last() =~= s.take(i as int));
        assert(s.take(i + 1).last() == c);
        if c == ',' {
            push_trimmed(&mut out, &cur);
            cur = Vec::new();
            assert(split_commas(s.take(i + 1)) == before.push(seq![]));
            assert(before.push(seq![]).drop_last() =~= before);
            assert(before =~= before.drop_last().push(before.last()));
        } else {
            cur.push(c);
            assert(split_commas(s.take(i + 1)) == before.update(
                before.len() - 1,
                before.last().push(c),
            ));
            assert(before.update(before.len() - 1, before.last().push(c)).drop_last()
                =~= before.drop_last());
        }
        i = i + 1;
    }
    assert(s.take(s.len() as int) =~= s);
    let ghost pieces = split_commas(s);
    push_trimmed(&mut out, &cur);
    assert(pieces =~= pieces.drop_last().push(pieces.last()));
    proof {
        lemma_nonempty_trimmed_nonempty(requested_slugs(*p), pieces);
    }
    assert forall|i: int| 0 <= i < out@.len() implies (#[trigger] out@[i])@.len() > 0 by {
        assert(views(out@)[i] == out@[i]@);
    }
    out
}

proof fn lemma_nonempty_trimmed_nonempty(r: Seq<Seq<char>>, pieces: Seq<Seq<char>>)
    requires
        r == nonempty_trimmed(pieces),
    ensures
        forall|i: int| 0 <= i < r.len() ==> (#[trigger] r[i]).len() > 0,
    decreases pieces.len(),
{
    if pieces.len() > 0 {
        lemma_nonempty_trimmed_nonempty(nonempty_trimmed(pieces.drop_last()), pieces.drop_last());
    }
}

/// A whole-number property that an expansion can change.
pub enum DeltaField {
    MaxPlayers,
    PlaytimeMin,
    PlaytimeMax,
    MinAge,
}

/// The change one expansion makes to a property (none counts as zero).
pub open spec fn delta_of(d: PropertyDelta, f: DeltaField) -> int {
    let v = match f {
        DeltaField::MaxPlayers => d.max_players_delta,
        DeltaField::PlaytimeMin => d.playtime_min_delta,
        DeltaField::PlaytimeMax => d.playtime_max_delta,
        DeltaField::MinAge => d.min_age_delta,
    };
    match v {
        Some(x) => x as int,
        None => 0,
    }
}

/// The summed change of all expansions to a property.
pub open spec fn delta_total(ds: Seq<PropertyDelta>, f: DeltaField) -> int
    decreases ds.len(),
{
    if ds.len() == 0 {
        0
    } else {
        delta_total(ds.drop_last(), f) + delta_of(ds.last(), f)
    }
}

pub open spec fn fits_i32(v: int) -> bool {
    i32::MIN <= v <= i32::MAX
}

/// Every running total of a property's changes is a 32-bit integer.
pub open spec fn running_totals_fit(ds: Seq<PropertyDelta>, f: DeltaField) -> bool {
    forall|k: int| 0 <= k <= ds.len() ==> fits_i32(#[trigger] delta_total(ds.take(k), f))
}

/// The base value plus the total change is a 32-bit integer.
pub open spec fn shifted_fits(v: Option<i32>, t: int) -> bool {
    v is Some ==> fits_i32(v.unwrap() + t)
}

/// The deltas can be summed and applied to the base in 32-bit integers.
pub open spec fn deltas_fit_spec(base: IntegerProperties, ds: Seq<PropertyDelta>) -> bool {
    &&& running_totals_fit(ds, DeltaField::MaxPlayers)
    &&& running_totals_fit(ds, DeltaField::PlaytimeMin)
    &&& running_totals_fit(ds, DeltaField::PlaytimeMax)
    &&& running_totals_fit(ds, DeltaField::MinAge)
    &&& shifted_fits(base.max_players, delta_total(ds, DeltaField::MaxPlayers))
    &&& shifted_fits(base.min_playtime, delta_total(ds, DeltaField::PlaytimeMin))
    &&& shifted_fits(base.max_playtime, delta_total(ds, DeltaField::PlaytimeMax))
    &&& shifted_fits(base.min_age, delta_total(ds, DeltaField::MinAge))
}

/// The first value if present, else the second.
pub open spec fn or_else(a: Option<i32>, b: Option<i32>) -> Option<i32> {
    match a {
        Some(x) => Some(x),
        None => b,
    }
}

/// The base value moved by `t`, if there is a base value.
pub open spec fn shifted(v: Option<i32>, t: int) -> Option<i32> {
    match v {
        Some(x) => Some((x + t) as i32),
        None => None,
    }
}

/// The three-tier resolution: nothing requested, the base; an explicit
/// combination, its values falling back to the base; recorded deltas, the
/// base moved by their sums (the minimum player count unchanged); none of
/// these, the base.
pub open spec fn resolve(
    base: IntegerProperties,
    requested: bool,
    combo: Option<CombinationProperties>,
    ds: Seq<PropertyDelta>,
) -> Resolution {
    if !requested {
        Resolution { source: CombinationSource::BaseOnly, effective: base }
    } else {
        match combo {
            Some(c) => Resolution {
                source: CombinationSource::Explicit,
                effective: IntegerProperties {
                    min_players: or_else(c.effective_min_players, base.min_players),
                    max_players: or_else(c.effective_max_players, base.max_players),
                    min_playtime: or_else(c.effective_playtime_min, base.min_playtime),
                    max_playtime: or_else(c.effective_playtime_max, base.max_playtime),
                    min_age: or_else(c.effective_min_age, base.min_age),
                },
            },
            None => if ds.len() > 0 {
                Resolution {
                    source: CombinationSource::Computed,
                    effective: IntegerProperties {
                        min_players: base.min_players,
                        max_players: shifted(base.max_players, delta_total(ds, DeltaField::MaxPlayers)),
                        min_playtime: shifted(base.min_playtime, delta_total(ds, DeltaField::PlaytimeMin)),
                        max_playtime: shifted(base.max_playtime, delta_total(ds, DeltaField::PlaytimeMax)),
                        min_age: shifted(base.min_age, delta_total(ds, DeltaField::MinAge)),
                    },
                }
            } else {
                Resolution { source: CombinationSource::BaseOnly, effective: base }
            },
        }
    }
}

fn or_else_exec(a: Option<i32>, b: Option<i32>) -> (r: Option<i32>)
    ensures
        r == or_else(a, b),
{
    match a {
        Some(x) => Some(x),
        None => b,
    }
}

fn shift_exec(v: Option<i32>, t: i32) -> (r: Option<i32>)
    requires
        shifted_fits(v, t as int),
    ensures
        r == shifted(v, t as int),
{
    match v {
        Some(x) => Some(x + t),
        None => None,
    }
}

fn delta_exec(d: Option<i32>) -> (r: i32)
    ensures
        r == match d {
            Some(x) => x as int,
            None => 0int,
        },
{
    match d {
        Some(x) => x,
        None => 0,
    }
}

proof fn lemma_total_step(ds: Seq<PropertyDelta>, i: int, f: DeltaField)
    requires
        0 <= i < ds.len(),
    ensures
        delta_total(ds.take(i + 1), f) == delta_total(ds.take(i), f) + delta_of(ds[i], f),
{
    assert(ds.take(i + 1).drop_last() =~= ds.take(i));
}

/// Resolves the effective whole-number properties of a base game with the
/// requested expansions (`slugs`), given the explicit combination recorded
/// for exactly those expansions, if any, and the property deltas recorded
/// for each of them that has one.
pub fn resolve_effective(
    base: &IntegerProperties,
    slugs: &Vec<String>,
    combo: &Option<CombinationProperties>,
    deltas: &Vec<PropertyDelta>,
) -> (r: Resolution)
    requires
        slugs@.len() > 0 && combo is None ==> deltas_fit_spec(*base, deltas@),
    ensures
        r == resolve(*base, slugs@.len() > 0, *combo, deltas@),
{
    if slugs.len() == 0 {
        return Resolution { source: CombinationSource::BaseOnly, effective: *base };
    }
    match combo {
        Some(c) => {
            return Resolution {
                source: CombinationSource::Explicit,
                effective: IntegerProperties {
                    min_players: or_else_exec(c.effective_min_players, base.min_players),
                    max_players: or_else_exec(c.effective_max_players, base.max_players),
                    min_playtime: or_else_exec(c.effective_playtime_min, base.min_playtime),
                    max_playtime: or_else_exec(c.effective_playtime_max, base.max_playtime),
                    min_age: or_else_exec(c.effective_min_age, base.min_age),
                },
            };
        },
        None => {},
    }
    let ghost ds = deltas@;
    let mut total_max_players: i32 = 0;
    let mut total_playtime_min: i32 = 0;
    let mut total_playtime_max: i32 = 0;
    let mut total_min_age: i32 = 0;
    let mut i: usize = 0;
    assert(ds.take(0) =~= seq![]);
    while i < deltas.len()
        invariant
            ds == deltas@,
            i <= ds.len(),
            deltas_fit_spec(*base, ds),
            total_max_players == delta_total(ds.take(i as int), DeltaField::MaxPlayers),
            total_playtime_min == delta_total(ds.take(i as int), DeltaField::PlaytimeMin),
            total_playtime_max == delta_total(ds.take(i as int), DeltaField::PlaytimeMax),
            total_min_age == delta_total(ds.take(i as int), DeltaField::MinAge),
        decreases deltas.len() - i,
    {
        let d = &deltas[i];
        proof {
            lemma_total_step(ds, i as int, DeltaField::MaxPlayers);
            lemma_total_step(ds, i as int, DeltaField::PlaytimeMin);
            lemma_total_step(ds, i as int, DeltaField::PlaytimeMax);
            lemma_total_step(ds, i as int, DeltaField::MinAge);
            assert(fits_i32(delta_total(ds.take(i + 1), DeltaField::MaxPlayers)));
            assert(fits_i32(delta_total(ds.take(i + 1), DeltaField::PlaytimeMin)));
            assert(fits_i32(delta_total(ds.take(i + 1), DeltaField::PlaytimeMax)));
            assert(fits_i32(delta_total(ds.take(i + 1), DeltaField::MinAge)));
        }
        total_max_players = total_max_players + delta_exec(d.max_players_delta);
        total_playtime_min = total_playtime_min + delta_exec(d.playtime_min_delta);
        total_playtime_max = total_playtime_max + delta_exec(d.playtime_max_delta);
        total_min_age = total_min_age + delta_exec(d.min_age_delta);
        i = i + 1;
    }
    assert(ds.take(ds.len() as int) =~= ds);
    if deltas.len() > 0 {
        Resolution {
            source: CombinationSource::Computed,
            effective: IntegerProperties {
                min_players: base.min_players,
                max_players: shift_exec(base.max_players, total_max_players),
                min_playtime: shift_exec(base.min_playtime, total_playtime_min),
                max_playtime: shift_exec(base.max_playtime, total_playtime_max),
                min_age: shift_exec(base.min_age, total_min_age),
            },
        }
    } else {
        Resolution { source: CombinationSource::BaseOnly, effective: *base }
    }
}

fn fits_exec(v: i64) -> (b: bool)
    ensures
        b == fits_i32(v as int),
{
    -2147483648i64 <= v && v <= 2147483647i64
}

fn shifted_fits_exec(v: Option<i32>, t: i64) -> (b: bool)
    requires
        fits_i32(t as int),
    ensures
        b == shifted_fits(v, t as int),
{
    match v {
        Some(x) => fits_exec(x as i64 + t),
        None => true,
    }
}

/// Whether the deltas can be summed and applied to the base in 32-bit
/// integers (what `resolve_effective` asks of them when no explicit
/// combination applies).
pub fn deltas_fit(base: &IntegerProperties, deltas: &Vec<PropertyDelta>) -> (b: bool)
    ensures
        b == deltas_fit_spec(*base, deltas@),
{
    let ghost ds = deltas@;
    let mut t_max: i64 = 0;
    let mut t_pmin: i64 = 0;
    let mut t_pmax: i64 = 0;
    let mut t_age: i64 = 0;
    let mut i: usize = 0;
    assert(ds.take(0) =~= seq![]);
    while i < deltas.len()
        invariant
            ds == deltas@,
            i <= ds.len(),
            t_max == delta_total(ds.take(i as int), DeltaField::MaxPlayers),
            t_pmin == delta_total(ds.take(i as int), DeltaField::PlaytimeMin),
            t_pmax == delta_total(ds.take(i as int), DeltaField::PlaytimeMax),
            t_age == delta_total(ds.take(i as int), DeltaField::MinAge),
            forall|k: int|
                0 <= k <= i ==> fits_i32(#[trigger] delta_total(ds.take(k), DeltaField::MaxPlayers)),
            forall|k: int|
                0 <= k <= i ==> fits_i32(#[trigger] delta_total(ds.take(k), DeltaField::PlaytimeMin)),
            forall|k: int|
                0 <= k <= i ==> fits_i32(#[trigger] delta_total(ds.take(k), DeltaField::PlaytimeMax)),
            forall|k: int|
                0 <= k <= i ==> fits_i32(#[trigger] delta_total(ds.take(k), DeltaField::MinAge)),
        decreases deltas.len() - i,
    {
        let d = &deltas[i];
        proof {
            lemma_total_step(ds, i as int, DeltaField::MaxPlayers);
            lemma_total_step(ds, i as int, DeltaField::PlaytimeMin);
            lemma_total_step(ds, i as int, DeltaField::PlaytimeMax);
            lemma_total_step(ds, i as int, DeltaField::MinAge);
        }
        let n_max = t_max + delta_exec(d.max_players_delta) as i64;
        let n_pmin = t_pmin + delta_exec(d.playtime_min_delta) as i64;
        let n_pmax = t_pmax + delta_exec(d.playtime_max_delta) as i64;
        let n_age = t_age + delta_exec(d.min_age_delta) as i64;
        if !(fits_exec(n_max) && fits_exec(n_pmin) && fits_exec(n_pmax) && fits_exec(n_age)) {
            proof {
                let k = i + 1;
                assert(0 <= k <= ds.len());
                if !fits_exec_spec(n_max) {
                    assert(!fits_i32(delta_total(ds.take(k), DeltaField::MaxPlayers)));
                    assert(!running_totals_fit(ds, DeltaField::MaxPlayers));
                } else if !fits_exec_spec(n_pmin) {
                    assert(!fits_i32(delta_total(ds.take(k), DeltaField::PlaytimeMin)));
                    assert(!running_totals_fit(ds, DeltaField::PlaytimeMin));
                } else if !fits_exec_spec(n_pmax) {
                    assert(!fits_i32(delta_total(ds.take(k), DeltaField::PlaytimeMax)));
                    assert(!running_totals_fit(ds, DeltaField::PlaytimeMax));
                } else {
                    assert(!fits_i32(delta_total(ds.take(k), DeltaField::MinAge)));
                    assert(!running_totals_fit(ds, DeltaField::MinAge));
                }
            }
            return false;
        }
        t_max = n_max;
        t_pmin = n_pmin;
        t_pmax = n_pmax;
        t_age = n_age;
        i = i + 1;
    }
    assert(ds.take(ds.len() as int) =~= ds);
    assert(running_totals_fit(ds, DeltaField::MaxPlayers));
    assert(running_totals_fit(ds, DeltaField::PlaytimeMin));
    assert(running_totals_fit(ds, DeltaField::PlaytimeMax));
    assert(running_totals_fit(ds, DeltaField::MinAge));
    shifted_fits_exec(base.max_players, t_max) && shifted_fits_exec(base.min_playtime, t_pmin)
        && shifted_fits_exec(base.max_playtime, t_pmax) && shifted_fits_exec(base.min_age, t_age)
}

pub open spec fn fits_exec_spec(v: i64) -> bool {
    fits_i32(v as int)
}

/// The label of a resolution tier in responses.
pub open spec fn source_label_spec(s: CombinationSource) -> Seq<char> {
    match s {
        CombinationSource::Explicit => "explicit"@,
        CombinationSource::Computed => "computed"@,
        CombinationSource::BaseOnly => "base_only"@,
    }
}

/// The label of a resolution tier in responses.
pub fn source_label(s: &CombinationSource) -> (t: &'static str)
    ensures
        t@ == source_label_spec(*s),
{
    match s {
        CombinationSource::Explicit => "explicit",
        CombinationSource::Computed => "computed",
        CombinationSource::BaseOnly => "base_only",
    }
}

/// The base game alone supports the player count (missing bounds count as 0).
pub open spec fn base_supports(min: Option<i32>, max: Option<i32>, players: i32) -> bool {
    let lo = match min {
        Some(v) => v,
        None => 0,
    };
    let hi = match max {
        Some(v) => v,
        None => 0,
    };
    lo <= players && hi >= players
}

/// Whether the base game alone supports the player count.
pub fn supports_players(min: Option<i32>, max: Option<i32>, players: i32) -> (b: bool)
    ensures
        b == base_supports(min, max, players),
{
    let lo = match min {
        Some(v) => v,
        None => 0,
    };
    let hi = match max {
        Some(v) => v,
        None => 0,
    };
    lo <= players && hi >= players
}

/// The `matched_via` metadata of an effective-mode result with the given
/// base player range, for the requested player count: none without a
/// player count; tier 3 (`base`) when the base game supports the count;
/// otherwise tier 1 (`expansion_combination`) with the properties and
/// expansions of the combination that supports it, if one was found, else
/// tier 2 (`delta_sum`).
pub fn matched_via_for(
    min_players: Option<i32>,
    max_players: Option<i32>,
    players: Option<i32>,
    combination: Option<(EffectiveMatchProperties, Vec<MatchedExpansion>)>,
) -> (m: Option<MatchedVia>)
    ensures
        players is None ==> m is None,
        players is Some ==> m is Some,
        players is Some && base_supports(min_players, max_players, players.unwrap()) ==> {
            &&& m.unwrap().match_type@ == "base"@
            &&& m.unwrap().expansions is None
            &&& m.unwrap().effective_properties is None
            &&& m.unwrap().resolution_tier == 3
        },
        players is Some && !base_supports(min_players, max_players, players.unwrap())
            && combination is Some ==> {
            &&& m.unwrap().match_type@ == "expansion_combination"@
            &&& m.unwrap().expansions == Some(combination.unwrap().1)
            &&& m.unwrap().effective_properties == Some(combination.unwrap().0)
            &&& m.unwrap().resolution_tier == 1
        },
        players is Some ==> (m.unwrap().resolution_tier == 3 <==> (match min_players {
            Some(lo) => lo <= players.unwrap(),
            None => 0 <= players.unwrap(),
        }) && (match max_players {
            Some(hi) => players.unwrap() <= hi,
            None => players.unwrap() <= 0,
        })),
        players is Some && !base_supports(min_players, max_players, players.unwrap())
            && combination is None ==> {
            &&& m.unwrap().match_type@ == "delta_sum"@
            &&& m.unwrap().expansions is None
            &&& m.unwrap().effective_properties is None
            &&& m.unwrap().resolution_tier == 2
        },
{
    let p = match players {
        Some(p) => p,
        None => return None,
    };
    if supports_players(min_players, max_players, p) {
        Some(
            MatchedVia {
                match_type: String::from_str("base"),
                expansions: None,
                effective_properties: None,
                resolution_tier: 3,
            },
        )
    } else {
        match combination {
            Some((props, exps)) => Some(
                MatchedVia {
                    match_type: String::from_str("expansion_combination"),
                    expansions: Some(exps),
                    effective_properties: Some(props),
                    resolution_tier: 1,
                },
            ),
            None => Some(
                MatchedVia {
                    match_type: String::from_str("delta_sum"),
                    expansions: None,
                    effective_properties: None,
                    resolution_tier: 2,
                },
            ),
        }
    }
}

/// The base game supports exactly the player counts from its minimum to its
/// maximum (a missing bound counting as 0): a count below the minimum or
/// above the maximum is never supported.
pub proof fn lemma_base_supports_its_range(min: Option<i32>, max: Option<i32>, players: i32)
    ensures
        base_supports(min, max, players) <==> (match min {
            Some(lo) => lo <= players,
            None => 0 <= players,
        }) && (match max {
            Some(hi) => players <= hi,
            None => players <= 0,
        }),
{
}

/// The ids are in ascending order.
pub open spec fn ascending(s: Seq<u128>) -> bool {
    forall|i: int, j: int| 0 <= i < j < s.len() ==> s[i] <= s[j]
}

/// The expansion ids in ascending order (the same ids, each as often as
/// given), the form in which a combination is looked up.
pub fn sorted_ids(ids: &Vec<u128>) -> (res: Vec<u128>)
    ensures
        ascending(res@),
        res@.to_multiset() == ids@.to_multiset(),
{
    let mut res: Vec<u128> = Vec::new();
    let mut i: usize = 0;
    assert(ids@.take(0) =~= res@);
    while i < ids.len()
        invariant
            i <= ids@.len(),
            ascending(res@),
            res@.to_multiset() == ids@.take(i as int).to_multiset(),
        decreases ids.len() - i,
    {
        let x = ids[i];
        let mut p: usize = 0;
        while p < res.len() && res[p] <= x
            invariant
                p <= res@.len(),
                forall|k: int| 0 <= k < p ==> res@[k] <= x,
            decreases res.len() - p,
        {
            p = p + 1;
        }
        let ghost before = res@;
        res.insert(p, x);
        proof {
            vstd::seq_lib::to_multiset_insert(before, p as int, x);
            assert(ids@.take(i + 1) =~= ids@.take(i as int).push(x));
            vstd::seq_lib::to_multiset_build(ids@.take(i as int), x);
            assert forall|a: int, b: int| 0 <= a < b < res@.len() implies res@[a] <= res@[b] by {
                if b < p {
                } else if b == p {
                } else if a < p {
                    assert(res@[b] == before[b - 1]);
                    if p < before.len() {
                        assert(before[p as int] > x);
                        assert(before[p as int] <= before[b - 1]);
                    }
                } else if a == p {
                    assert(res@[b] == before[b - 1]);
                    assert(before[p as int] > x);
                    assert(before[p as int] <= before[b - 1]);
                } else {
                    assert(res@[a] == before[a - 1]);
                    assert(res@[b] == before[b - 1]);
                }
            }
        }
        i = i + 1;
    }
    assert(ids@.take(ids@.len() as int) =~= ids@);
    res
}

proof fn lemma_delta_total_append(a: Seq<PropertyDelta>, b: Seq<PropertyDelta>, f: DeltaField)
    ensures
        delta_total(a + b, f) == delta_total(a, f) + delta_total(b, f),
    decreases b.len(),
{
    if b.len() == 0 {
        assert(a + b =~= a);
    } else {
        lemma_delta_total_append(a, b.drop_last(), f);
        assert((a + b).drop_last() =~= a + b.drop_last());
        assert((a + b).last() == b.last());
    }
}

/// Taking one expansion out takes its change out of the total.
proof fn lemma_delta_total_remove(ds: Seq<PropertyDelta>, i: int, f: DeltaField)
    requires
        0 <= i < ds.len(),
    ensures
        delta_total(ds, f) == delta_total(ds.remove(i), f) + delta_of(ds[i], f),
{
    let a = ds.take(i);
    let one = seq![ds[i]];
    let b = ds.skip(i + 1);
    assert(ds =~= (a + one) + b);
    assert(ds.remove(i) =~= a + b);
    assert(one.drop_last() =~= Seq::<PropertyDelta>::empty());
    assert(delta_total(one, f) == delta_total(one.drop_last(), f) + delta_of(ds[i], f));
    lemma_delta_total_append(a + one, b, f);
    lemma_delta_total_append(a, one, f);
    lemma_delta_total_append(a, b, f);
}

/// The total change does not depend on the order of the expansions.
proof fn lemma_delta_total_reordered(ds1: Seq<PropertyDelta>, ds2: Seq<PropertyDelta>, f: DeltaField)
    requires
        ds1.to_multiset() == ds2.to_multiset(),
    ensures
        delta_total(ds1, f) == delta_total(ds2, f),
    decreases ds1.len(),
{
    broadcast use vstd::multiset::group_multiset_axioms;

    vstd::seq_lib::to_multiset_len(ds1);
    vstd::seq_lib::to_multiset_len(ds2);
    if ds1.len() == 0 {
        assert(ds2.len() == 0);
    } else {
        let x = ds1.last();
        let rest = ds1.drop_last();
        assert(ds1 =~= rest.push(x));
        vstd::seq_lib::to_multiset_build(rest, x);
        vstd::seq_lib::to_multiset_contains(ds2, x);
        assert(ds2.to_multiset().count(x) > 0);
        let i = choose|i: int| 0 <= i < ds2.len() && ds2[i] == x;
        vstd::seq_lib::to_multiset_remove(ds2, i);
        assert(ds2.remove(i).to_multiset() =~= rest.to_multiset());
        lemma_delta_total_reordered(rest, ds2.remove(i), f);
        lemma_delta_total_remove(ds2, i, f);
    }
}

/// The order in which expansions are named does not change the result: the
/// deltas of any reordering of the same expansions resolve to the same
/// source and the same effective properties.
pub proof fn lemma_expansion_order_irrelevant(
    base: IntegerProperties,
    requested: bool,
    combo: Option<CombinationProperties>,
    ds1: Seq<PropertyDelta>,
    ds2: Seq<PropertyDelta>,
)
    requires
        ds1.to_multiset() == ds2.to_multiset(),
    ensures
        resolve(base, requested, combo, ds1) == resolve(base, requested, combo, ds2),
{
    vstd::seq_lib::to_multiset_len(ds1);
    vstd::seq_lib::to_multiset_len(ds2);
    lemma_delta_total_reordered(ds1, ds2, DeltaField::MaxPlayers);
    lemma_delta_total_reordered(ds1, ds2, DeltaField::PlaytimeMin);
    lemma_delta_total_reordered(ds1, ds2, DeltaField::PlaytimeMax);
    lemma_delta_total_reordered(ds1, ds2, DeltaField::MinAge);
}

/// The lookup key of an expansion combination does not depend on the order
/// in which the expansions are named: two ascending orderings of the same
/// ids are the same sequence, so `sorted_ids` gives one key for every
/// reordering of a list.
pub proof fn lemma_lookup_key_order_irrelevant(s1: Seq<u128>, s2: Seq<u128>)
    requires
        ascending(s1),
        ascending(s2),
        s1.to_multiset() == s2.to_multiset(),
    ensures
        s1 == s2,
    decreases s1.len(),
{
    broadcast use vstd::multiset::group_multiset_axioms;

    vstd::seq_lib::to_multiset_len(s1);
    vstd::seq_lib::to_multiset_len(s2);
    if s1.len() == 0 {
        assert(s1 =~= s2);
    } else {
        let n = s1.len() - 1;
        let x = s1[n];
        let y = s2[n];
        vstd::seq_lib::to_multiset_contains(s1, x);
        vstd::seq_lib::to_multiset_contains(s1, y);
        vstd::seq_lib::to_multiset_contains(s2, x);
        vstd::seq_lib::to_multiset_contains(s2, y);
        assert(s1[n] == x);
        assert(s2[n] == y);
        assert(s2.contains(x));
        assert(s1.contains(y));
        let j = choose|j: int| 0 <= j < s2.len() && s2[j] == x;
        let k = choose|k: int| 0 <= k < s1.len() && s1[k] == y;
        assert(x <= y);
        assert(y <= x);
        vstd::seq_lib::to_multiset_remove(s1, n);
        vstd::seq_lib::to_multiset_remove(s2, n);
        assert(s1.remove(n) =~= s1.drop_last());
        assert(s2.remove(n) =~= s2.drop_last());
        lemma_lookup_key_order_irrelevant(s1.drop_last(), s2.drop_last());
        assert(s1 =~= s2.drop_last().push(y));
        assert(s2 =~= s2.drop_last().push(y));
    }
}

/// The three tiers: with nothing requested the base game; with an explicit
/// combination, each property the combination records (the base game's
/// value where it records none); else with recorded deltas, the base game's
/// values moved by the summed deltas (the minimum player count unchanged);
/// else the base game.
pub proof fn lemma_resolution_tiers(
    base: IntegerProperties,
    requested: bool,
    combo: Option<CombinationProperties>,
    ds: Seq<PropertyDelta>,
)
    ensures
        !requested ==> resolve(base, requested, combo, ds).source == CombinationSource::BaseOnly
            && resolve(base, requested, combo, ds).effective == base,
        requested && combo is Some ==> resolve(base, requested, combo, ds).source
            == CombinationSource::Explicit,
        requested && combo is Some && combo.unwrap().effective_min_players is Some
            ==> resolve(base, requested, combo, ds).effective.min_players == combo.unwrap().effective_min_players,
        requested && combo is Some && combo.unwrap().effective_min_players is None
            ==> resolve(base, requested, combo, ds).effective.min_players == base.min_players,
        requested && combo is Some && combo.unwrap().effective_max_players is Some
            ==> resolve(base, requested, combo, ds).effective.max_players == combo.unwrap().effective_max_players,
        requested && combo is Some && combo.unwrap().effective_max_players is None
            ==> resolve(base, requested, combo, ds).effective.max_players == base.max_players,
        requested && combo is Some && combo.unwrap().effective_playtime_min is Some
            ==> resolve(base, requested, combo, ds).effective.min_playtime == combo.unwrap().effective_playtime_min,
        requested && combo is Some && combo.unwrap().effective_playtime_min is None
            ==> resolve(base, requested, combo, ds).effective.min_playtime == base.min_playtime,
        requested && combo is Some && combo.unwrap().effective_playtime_max is Some
            ==> resolve(base, requested, combo, ds).effective.max_playtime == combo.unwrap().effective_playtime_max,
        requested && combo is Some && combo.unwrap().effective_playtime_max is None
            ==> resolve(base, requested, combo, ds).effective.max_playtime == base.max_playtime,
        requested && combo is Some && combo.unwrap().effective_min_age is Some
            ==> resolve(base, requested, combo, ds).effective.min_age == combo.unwrap().effective_min_age,
        requested && combo is Some && combo.unwrap().effective_min_age is None
            ==> resolve(base, requested, combo, ds).effective.min_age == base.min_age,
        requested && combo is None && ds.len() > 0 ==> resolve(base, requested, combo, ds).source
            == CombinationSource::Computed && resolve(base, requested, combo, ds).effective.min_players
            == base.min_players,
        requested && combo is None && ds.len() > 0 && deltas_fit_spec(base, ds) ==> (match base.max_players {
            Some(x) => resolve(base, requested, combo, ds).effective.max_players is Some && resolve(
                base,
                requested,
                combo,
                ds,
            ).effective.max_players.unwrap() == x + delta_total(ds, DeltaField::MaxPlayers),
            None => resolve(base, requested, combo, ds).effective.max_players is None,
        }),
        requested && combo is None && ds.len() > 0 && deltas_fit_spec(base, ds) ==> (match base.min_playtime {
            Some(x) => resolve(base, requested, combo, ds).effective.min_playtime is Some && resolve(
                base,
                requested,
                combo,
                ds,
            ).effective.min_playtime.unwrap() == x + delta_total(ds, DeltaField::PlaytimeMin),
            None => resolve(base, requested, combo, ds).effective.min_playtime is None,
        }),
        requested && combo is None && ds.len() > 0 && deltas_fit_spec(base, ds) ==> (match base.max_playtime {
            Some(x) => resolve(base, requested, combo, ds).effective.max_playtime is Some && resolve(
                base,
                requested,
                combo,
                ds,
            ).effective.max_playtime.unwrap() == x + delta_total(ds, DeltaField::PlaytimeMax),
            None => resolve(base, requested, combo, ds).effective.max_playtime is None,
        }),
        requested && combo is None && ds.len() > 0 && deltas_fit_spec(base, ds) ==> (match base.min_age {
            Some(x) => resolve(base, requested, combo, ds).effective.min_age is Some && resolve(
                base,
                requested,
                combo,
                ds,
            ).effective.min_age.unwrap() == x + delta_total(ds, DeltaField::MinAge),
            None => resolve(base, requested, combo, ds).effective.min_age is None,
        }),
        requested && combo is None && ds.len() == 0 ==> resolve(base, requested, combo, ds).source
            == CombinationSource::BaseOnly && resolve(base, requested, combo, ds).effective == base,
{
}

/// With no expansion requested, the effective properties are the base
/// game's, whatever else is recorded.
pub proof fn lemma_nothing_requested_is_base(
    base: IntegerProperties,
    combo: Option<CombinationProperties>,
    ds: Seq<PropertyDelta>,
)
    ensures
        resolve(base, false, combo, ds).effective == base,
        resolve(base, false, combo, ds).source == CombinationSource::BaseOnly,
{
}

/// A requested expansion with neither an explicit combination nor recorded
/// deltas leaves the base game's properties.
pub proof fn lemma_no_data_is_base(base: IntegerProperties)
    ensures
        resolve(base, true, None, Seq::<PropertyDelta>::empty()).effective == base,
        resolve(base, true, None, Seq::<PropertyDelta>::empty()).source
            == CombinationSource::BaseOnly,
{
}

proof fn lemma_split_no_commas(s: Seq<char>)
    ensures
        forall|i: int, j: int|
            0 <= i < split_commas(s).len() && 0 <= j < split_commas(s)[i].len() ==> split_commas(
                s,
            )[i][j] != ',',
    decreases s.len(),
{
    if s.len() > 0 {
        lemma_split_no_commas(s.drop_last());
        lemma_split_commas_nonempty(s.drop_last());
    }
}

proof fn lemma_trim_start_suffix(s: Seq<char>)
    ensures
        exists|k: int| 0 <= k <= s.len() && trim_start(s) == s.subrange(k, s.len() as int),
        trim_start(s).len() > 0 ==> !is_white_space(trim_start(s)[0]),
    decreases s.len(),
{
    if s.len() > 0 && is_white_space(s[0]) {
        lemma_trim_start_suffix(s.drop_first());
        let k = choose|k: int|
            0 <= k <= s.drop_first().len() && trim_start(s.drop_first()) == s.drop_first().subrange(
                k,
                s.drop_first().len() as int,
            );
        assert(s.drop_first().subrange(k, s.drop_first().len() as int) =~= s.subrange(
            k + 1,
            s.len() as int,
        ));
    } else {
        assert(s.subrange(0, s.len() as int) =~= s);
    }
}

proof fn lemma_trim_end_prefix(s: Seq<char>)
    ensures
        exists|k: int| 0 <= k <= s.len() && trim_end(s) == s.subrange(0, k),
        trim_end(s).len() > 0 ==> !is_white_space(trim_end(s).last()),
        trim_end(s).len() > 0 ==> trim_end(s)[0] == s[0],
    decreases s.len(),
{
    if s.len() > 0 && is_white_space(s.last()) {
        lemma_trim_end_prefix(s.drop_last());
        let k = choose|k: int|
            0 <= k <= s.drop_last().len() && trim_end(s.drop_last()) == s.drop_last().subrange(0, k);
        assert(s.drop_last().subrange(0, k) =~= s.subrange(0, k));
    } else {
        assert(s.subrange(0, s.len() as int) =~= s);
    }
}

/// A slug that a request names is clean: not empty, without commas, and
/// neither beginning nor ending with white space.
pub open spec fn clean_slug(t: Seq<char>) -> bool {
    &&& t.len() > 0
    &&& forall|j: int| 0 <= j < t.len() ==> t[j] != ','
    &&& !is_white_space(t[0])
    &&& !is_white_space(t.last())
}

proof fn lemma_trim_clean(p: Seq<char>)
    requires
        forall|j: int| 0 <= j < p.len() ==> p[j] != ',',
        trim(p).len() > 0,
    ensures
        clean_slug(trim(p)),
{
    lemma_trim_start_suffix(p);
    let ts = trim_start(p);
    lemma_trim_end_prefix(ts);
    let k1 = choose|k: int| 0 <= k <= p.len() && trim_start(p) == p.subrange(k, p.len() as int);
    let k2 = choose|k: int| 0 <= k <= ts.len() && trim_end(ts) == ts.subrange(0, k);
    assert forall|j: int| 0 <= j < trim(p).len() implies trim(p)[j] != ',' by {
        assert(trim(p)[j] == ts[j]);
        assert(ts[j] == p[k1 + j]);
    }
}

proof fn lemma_nonempty_trimmed_clean(pieces: Seq<Seq<char>>)
    requires
        forall|i: int, j: int|
            0 <= i < pieces.len() && 0 <= j < pieces[i].len() ==> pieces[i][j] != ',',
    ensures
        forall|i: int| 0 <= i < nonempty_trimmed(pieces).len() ==> clean_slug(
            #[trigger] nonempty_trimmed(pieces)[i],
        ),
    decreases pieces.len(),
{
    if pieces.len() > 0 {
        let front = pieces.drop_last();
        assert forall|i: int, j: int| 0 <= i < front.len() && 0 <= j < front[i].len() implies front[i][j] != ',' by {
            assert(front[i] == pieces[i]);
        }
        lemma_nonempty_trimmed_clean(front);
        let rest = nonempty_trimmed(front);
        let last = pieces.last();
        assert forall|j: int| 0 <= j < last.len() implies last[j] != ',' by {
            assert(pieces[pieces.len() - 1][j] != ',');
        }
        if trim(last).len() > 0 {
            lemma_trim_clean(last);
            assert(nonempty_trimmed(pieces) == rest.push(trim(last)));
            assert forall|i: int| 0 <= i < nonempty_trimmed(pieces).len() implies clean_slug(
                #[trigger] nonempty_trimmed(pieces)[i],
            ) by {
                if i < rest.len() {
                    assert(nonempty_trimmed(pieces)[i] == rest[i]);
                }
            }
        } else {
            assert(nonempty_trimmed(pieces) == rest);
        }
    }
}

/// Every expansion slug a request names is clean.
pub proof fn lemma_requested_slugs_clean(p: EffectiveParams)
    ensures
        forall|i: int| 0 <= i < requested_slugs(p).len() ==> clean_slug(
            #[trigger] requested_slugs(p)[i],
        ),
{
    let w = match p.with {
        Some(w) => w@,
        None => seq![],
    };
    lemma_split_no_commas(w);
    lemma_nonempty_trimmed_clean(split_commas(w));
}

} // verus!
