//! Keyset positions in a sorted listing. A listing is ordered by a sort
//! column (descending or ascending, missing values last) and then by id, or
//! by id alone; a page continues after (or ends before) the row a cursor
//! names. This module holds the order itself, the proof that a keyset
//! condition selects exactly the rows after (or before) the cursor's row,
//! and the SQL text that expresses that condition.

use crate::text::cat;
use vstd::prelude::*;

verus! {

/// A row as the listing order sees it: the rank of its sort value in the
/// value order (none for a missing value) and its id.
pub struct KeyedRow {
    pub value: Option<int>,
    pub id: u128,
}

/// `a` comes before `b` in the listing order: by id alone, or by sort value
/// (missing values last) and then by ascending id.
pub open spec fn comes_before(a: KeyedRow, b: KeyedRow, ascending: bool, by_id: bool) -> bool {
    if by_id {
        if ascending {
            a.id < b.id
        } else {
            a.id > b.id
        }
    } else {
        match (a.value, b.value) {
            (Some(x), Some(y)) => (if ascending {
                x < y
            } else {
                x > y
            }) || (x == y && a.id < b.id),
            (Some(_), None) => true,
            (None, Some(_)) => false,
            (None, None) => a.id < b.id,
        }
    }
}

/// The listing order is a strict total order on rows with distinct ids.
pub proof fn lemma_listing_order_total(
    a: KeyedRow,
    b: KeyedRow,
    c: KeyedRow,
    ascending: bool,
    by_id: bool,
)
    ensures
        !comes_before(a, a, ascending, by_id),
        comes_before(a, b, ascending, by_id) ==> !comes_before(b, a, ascending, by_id),
        comes_before(a, b, ascending, by_id) && comes_before(b, c, ascending, by_id)
            ==> comes_before(a, c, ascending, by_id),
        a.id != b.id ==> comes_before(a, b, ascending, by_id) || comes_before(
            b,
            a,
            ascending,
            by_id,
        ),
{
}

/// The rows are listed in the listing order.
pub open spec fn listed_in_order(rows: Seq<KeyedRow>, ascending: bool, by_id: bool) -> bool {
    forall|i: int, j: int| 0 <= i < j < rows.len() ==> comes_before(rows[i], rows[j], ascending, by_id)
}

/// Paging neither repeats nor skips a row: in a listing in order, the rows
/// that come after the `k`-th row are exactly those listed after it, and
/// the rows that come before it are exactly those listed before it. So the
/// page after a cursor continues the listing right after the cursor's row,
/// and the page before it ends right before it.
pub proof fn lemma_keyset_pages_continue(rows: Seq<KeyedRow>, k: int, ascending: bool, by_id: bool)
    requires
        listed_in_order(rows, ascending, by_id),
        0 <= k < rows.len(),
    ensures
        forall|j: int|
            0 <= j < rows.len() ==> (comes_before(rows[k], #[trigger] rows[j], ascending, by_id)
                <==> j > k),
        forall|j: int|
            0 <= j < rows.len() ==> (comes_before(#[trigger] rows[j], rows[k], ascending, by_id)
                <==> j < k),
{
    assert forall|j: int| 0 <= j < rows.len() implies (comes_before(
        rows[k],
        #[trigger] rows[j],
        ascending,
        by_id,
    ) <==> j > k) && (comes_before(rows[j], rows[k], ascending, by_id) <==> j < k) by {
        lemma_listing_order_total(rows[j], rows[k], rows[k], ascending, by_id);
        lemma_listing_order_total(rows[k], rows[j], rows[j], ascending, by_id);
    }
}

/// The SQL condition selecting the rows after (`after`) or before the row
/// whose id is the SQL expression `x`, in the listing order by `col`
/// (`sel` being the subquery of that row's `col`) and then by the id column
/// `id_col`, or by `id_col` alone. It is the listing order above written in
/// SQL, with a missing value as SQL `NULL` sorted last (`keyset_holds` reads
/// it by SQL's rules).
pub open spec fn keyset_text(
    col: Seq<char>,
    id_col: Seq<char>,
    sel: Seq<char>,
    x: Seq<char>,
    ascending: bool,
    after: bool,
    by_id: bool,
) -> Seq<char> {
    if by_id {
        id_col + (if ascending == after {
            " > "@
        } else {
            " < "@
        }) + x
    } else if after {
        "(CASE WHEN "@ + sel + " IS NULL THEN "@ + col + " IS NULL AND "@ + id_col + " > "@ + x
            + " ELSE "@ + col + (if ascending {
            " > "@
        } else {
            " < "@
        }) + sel + " OR ("@ + col + " = "@ + sel + " AND "@ + id_col + " > "@ + x + ") OR "@ + col
            + " IS NULL END)"@
    } else {
        "(CASE WHEN "@ + sel + " IS NULL THEN "@ + col + " IS NOT NULL OR "@ + id_col + " < "@ + x
            + " ELSE "@ + col + (if ascending {
            " < "@
        } else {
            " > "@
        }) + sel + " OR ("@ + col + " = "@ + sel + " AND "@ + id_col + " < "@ + x + ") END)"@
    }
}

/// A comparison in SQL holds only when both values are present.
pub open spec fn sql_holds(a: Option<int>, b: Option<int>, rel: spec_fn(int, int) -> bool) -> bool {
    match (a, b) {
        (Some(x), Some(y)) => rel(x, y),
        _ => false,
    }
}

/// Whether `keyset_text` holds for `row`, the cursor's row being `k`, read
/// by SQL's rules: a comparison with a missing (NULL) value does not hold,
/// `IS NULL` tests for a missing value, and the `CASE` takes its first
/// branch exactly when the cursor's value is missing.
pub open spec fn keyset_holds(row: KeyedRow, k: KeyedRow, ascending: bool, after: bool, by_id: bool) -> bool {
    let lt = |x: int, y: int| x < y;
    let gt = |x: int, y: int| x > y;
    let eq = |x: int, y: int| x == y;
    if by_id {
        if ascending == after {
            row.id > k.id
        } else {
            row.id < k.id
        }
    } else if after {
        if k.value is None {
            row.value is None && row.id > k.id
        } else {
            sql_holds(row.value, k.value, if ascending { gt } else { lt })
                || (sql_holds(row.value, k.value, eq) && row.id > k.id) || row.value is None
        }
    } else {
        if k.value is None {
            row.value is Some || row.id < k.id
        } else {
            sql_holds(row.value, k.value, if ascending { lt } else { gt })
                || (sql_holds(row.value, k.value, eq) && row.id < k.id)
        }
    }
}

/// The keyset condition selects exactly the rows that come after the
/// cursor's row in the listing order (`after`), or exactly those that come
/// before it.
pub proof fn lemma_keyset_condition_is_listing_order(
    row: KeyedRow,
    k: KeyedRow,
    ascending: bool,
    by_id: bool,
)
    ensures
        keyset_holds(row, k, ascending, true, by_id) <==> comes_before(k, row, ascending, by_id),
        keyset_holds(row, k, ascending, false, by_id) <==> comes_before(row, k, ascending, by_id),
{
}

/// The subquery of the sort value `key` of the game whose id is `x`.
pub open spec fn key_of_row(key: Seq<char>, x: Seq<char>) -> Seq<char> {
    "(SELECT k."@ + key + " FROM games k WHERE k.id = "@ + x + ")"@
}

/// Builds the keyset condition (see `keyset_text`), the cursor row's value
/// being read by the subquery `key_of_row(key, x)`.
pub fn keyset_condition(
    col: &str,
    id_col: &str,
    key: &str,
    x: &str,
    ascending: bool,
    after: bool,
    by_id: bool,
) -> (c: String)
    ensures
        c@ == keyset_text(col@, id_col@, key_of_row(key@, x@), x@, ascending, after, by_id),
{
    let mut c = String::new();
    if by_id {
        c.append(id_col);
        c.append(if ascending == after { " > " } else { " < " });
        c.append(x);
    } else {
        let mut sel = cat("(SELECT k.", key);
        sel.append(" FROM games k WHERE k.id = ");
        sel.append(x);
        sel.append(")");
        c.append("(CASE WHEN ");
        c.append(sel.as_str());
        if after {
            c.append(" IS NULL THEN ");
            c.append(col);
            c.append(" IS NULL AND ");
            c.append(id_col);
            c.append(" > ");
            c.append(x);
            c.append(" ELSE ");
            c.append(col);
            c.append(if ascending { " > " } else { " < " });
            c.append(sel.as_str());
            c.append(" OR (");
            c.append(col);
            c.append(" = ");
            c.append(sel.as_str());
            c.append(" AND ");
            c.append(id_col);
            c.append(" > ");
            c.append(x);
            c.append(") OR ");
            c.append(col);
            c.append(" IS NULL END)");
        } else {
            c.append(" IS NULL THEN ");
            c.append(col);
            c.append(" IS NOT NULL OR ");
            c.append(id_col);
            c.append(" < ");
            c.append(x);
            c.append(" ELSE ");
            c.append(col);
            c.append(if ascending { " < " } else { " > " });
            c.append(sel.as_str());
            c.append(" OR (");
            c.append(col);
            c.append(" = ");
            c.append(sel.as_str());
            c.append(" AND ");
            c.append(id_col);
            c.append(" < ");
            c.append(x);
            c.append(") END)");
        }
    }
    assert(c@ =~= keyset_text(col@, id_col@, key_of_row(key@, x@), x@, ascending, after, by_id));
    c
}

} // verus!
