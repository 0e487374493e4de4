use vstd::prelude::*;

verus! {

// The engine keeps, for every policy-type tag the model defines, an ordered
// collection of distinct rows (ordered lists of strings).  The spec functions
// below say exactly how that store answers and changes under each operation;
// the dispatcher's contract and the trusted engine wrappers are both phrased
// over them.  A section map sends a tag to its rows, in insertion order; a
// tag outside the map's domain is one the model does not define.

/// The rows a tag holds; a tag the model does not define holds none.
pub open spec fn sec_rows(m: Map<Seq<char>, Seq<Seq<Seq<char>>>>, tag: Seq<char>) -> Seq<
    Seq<Seq<char>>,
> {
    if m.dom().contains(tag) {
        m[tag]
    } else {
        Seq::empty()
    }
}

/// Whether adding one row reports a change: the tag must be defined and the
/// row absent.  Re-adding an existing row is reported as `false`.
pub open spec fn add_rule_result(
    m: Map<Seq<char>, Seq<Seq<Seq<char>>>>,
    tag: Seq<char>,
    rule: Seq<Seq<char>>,
) -> bool {
    m.dom().contains(tag) && !m[tag].contains(rule)
}

/// One insertion into a set-backed, ordered store: an absent row is
/// appended at the end; a present row is moved to the end (the engine's
/// store keeps one copy and re-links it at the back).
pub open spec fn move_to_back(rows: Seq<Seq<Seq<char>>>, rule: Seq<Seq<char>>) -> Seq<
    Seq<Seq<char>>,
> {
    if rows.contains(rule) {
        rows.remove_value(rule).push(rule)
    } else {
        rows.push(rule)
    }
}

/// The store after adding one row: the insertion above when the tag is
/// defined, untouched otherwise.  Note that re-adding a present row reports
/// no change yet still moves the row to the end.
pub open spec fn add_rule(
    m: Map<Seq<char>, Seq<Seq<Seq<char>>>>,
    tag: Seq<char>,
    rule: Seq<Seq<char>>,
) -> Map<Seq<char>, Seq<Seq<Seq<char>>>> {
    if m.dom().contains(tag) {
        m.insert(tag, move_to_back(m[tag], rule))
    } else {
        m
    }
}

/// A row is in the store after an insertion iff it was there before or is
/// the inserted row.
pub proof fn lemma_move_to_back_contains(
    rows: Seq<Seq<Seq<char>>>,
    rule: Seq<Seq<char>>,
    x: Seq<Seq<char>>,
)
    ensures
        move_to_back(rows, rule).contains(x) <==> rows.contains(x) || x == rule,
{
    let out = move_to_back(rows, rule);
    assert(out[out.len() - 1] == rule);
    assert(out.contains(rule));
    if rows.contains(rule) {
        let trimmed = rows.remove_value(rule);
        rows.index_of_first_ensures(rule);
        let at = rows.index_of_first(rule).unwrap();
        rows.remove_ensures(at);
        if x != rule {
            if rows.contains(x) {
                let i = choose|i: int| 0 <= i < rows.len() && rows[i] == x;
                if i < at {
                    assert(trimmed[i] == x);
                } else {
                    assert(trimmed[i - 1] == x);
                }
                assert(out[if i < at {
                    i
                } else {
                    i - 1
                }] == x);
                assert(out.contains(x));
            }
            if out.contains(x) {
                let j = choose|j: int| 0 <= j < out.len() && out[j] == x;
                assert(trimmed[j] == x);
                if j < at {
                    assert(rows[j] == x);
                } else {
                    assert(rows[j + 1] == x);
                }
                assert(rows.contains(x));
            }
        }
    } else {
        if x != rule {
            if rows.contains(x) {
                let i = choose|i: int| 0 <= i < rows.len() && rows[i] == x;
                assert(out[i] == x);
            }
            if out.contains(x) {
                let j = choose|j: int| 0 <= j < out.len() && out[j] == x;
                assert(rows[j] == x);
            }
        }
    }
}

/// Every row of the batch is absent from `rows`.
pub open spec fn batch_new_to(rows: Seq<Seq<Seq<char>>>, batch: Seq<Seq<Seq<char>>>) -> bool {
    forall|i: int| 0 <= i < batch.len() ==> !rows.contains(#[trigger] batch[i])
}

/// A batch inserted row by row, in order: each row is appended, and a
/// repetition inside the batch moves the one stored copy to the end, so of
/// duplicate rows the last occurrence's position wins.
pub open spec fn extend_rows(rows: Seq<Seq<Seq<char>>>, batch: Seq<Seq<Seq<char>>>) -> Seq<
    Seq<Seq<char>>,
>
    decreases batch.len(),
{
    if batch.len() == 0 {
        rows
    } else {
        move_to_back(extend_rows(rows, batch.drop_last()), batch.last())
    }
}

/// A row is in the extended store iff it was there before or the batch
/// holds it.
pub proof fn lemma_extend_rows_contains(
    rows: Seq<Seq<Seq<char>>>,
    batch: Seq<Seq<Seq<char>>>,
    x: Seq<Seq<char>>,
)
    ensures
        extend_rows(rows, batch).contains(x) <==> rows.contains(x) || batch.contains(x),
    decreases batch.len(),
{
    if batch.len() == 0 {
    } else {
        let pre = batch.drop_last();
        lemma_extend_rows_contains(rows, pre, x);
        lemma_move_to_back_contains(extend_rows(rows, pre), batch.last(), x);
        assert(batch.contains(x) <==> pre.contains(x) || x == batch.last()) by {
            if batch.contains(x) {
                let i = choose|i: int| 0 <= i < batch.len() && batch[i] == x;
                if i < pre.len() {
                    assert(pre[i] == x);
                }
            }
            if pre.contains(x) {
                let i = choose|i: int| 0 <= i < pre.len() && pre[i] == x;
                assert(batch[i] == x);
            }
            if x == batch.last() {
                assert(batch[batch.len() - 1] == x);
            }
        }
    }
}

/// Whether a batch add reports a change as the engine words it.  The engine
/// adds all rows or none: it reports `true` iff no batch row is already
/// present -- and, on an undefined tag or an empty batch, it stores nothing
/// yet still reports `true`.
pub open spec fn add_batch_result(
    m: Map<Seq<char>, Seq<Seq<Seq<char>>>>,
    tag: Seq<char>,
    batch: Seq<Seq<Seq<char>>>,
) -> bool {
    !m.dom().contains(tag) || batch_new_to(m[tag], batch)
}

/// Whether a batch add actually changes the store: the tag is defined, the
/// batch non-empty, and no batch row already present.  This is the answer
/// the broker reports, correcting the engine's convention on the two
/// no-op corners above.
pub open spec fn add_batch_changed(
    m: Map<Seq<char>, Seq<Seq<Seq<char>>>>,
    tag: Seq<char>,
    batch: Seq<Seq<Seq<char>>>,
) -> bool {
    m.dom().contains(tag) && batch.len() > 0 && batch_new_to(m[tag], batch)
}

/// The store after a batch add: every row inserted in batch order when none
/// was present, untouched otherwise.
pub open spec fn add_batch(
    m: Map<Seq<char>, Seq<Seq<Seq<char>>>>,
    tag: Seq<char>,
    batch: Seq<Seq<Seq<char>>>,
) -> Map<Seq<char>, Seq<Seq<Seq<char>>>> {
    if m.dom().contains(tag) && batch_new_to(m[tag], batch) {
        m.insert(tag, extend_rows(m[tag], batch))
    } else {
        m
    }
}

/// Whether removing one row reports a change: the tag is defined and the row
/// present.  Removing an absent row is a no-op reported as `false`.
pub open spec fn remove_rule_result(
    m: Map<Seq<char>, Seq<Seq<Seq<char>>>>,
    tag: Seq<char>,
    rule: Seq<Seq<char>>,
) -> bool {
    m.dom().contains(tag) && m[tag].contains(rule)
}

/// The store after removing one row, the order of the rest kept.
pub open spec fn remove_rule(
    m: Map<Seq<char>, Seq<Seq<Seq<char>>>>,
    tag: Seq<char>,
    rule: Seq<Seq<char>>,
) -> Map<Seq<char>, Seq<Seq<Seq<char>>>> {
    if remove_rule_result(m, tag, rule) {
        m.insert(tag, m[tag].remove_value(rule))
    } else {
        m
    }
}

/// Every row of the batch is present in `rows`.
pub open spec fn batch_all_in(rows: Seq<Seq<Seq<char>>>, batch: Seq<Seq<Seq<char>>>) -> bool {
    forall|i: int| 0 <= i < batch.len() ==> rows.contains(#[trigger] batch[i])
}

/// Whether a batch removal reports a change as the engine words it.  The
/// engine removes all rows or none: `true` iff every batch row is present
/// -- and, on an undefined tag or an empty batch, it removes nothing yet
/// still reports `true`.
pub open spec fn remove_batch_result(
    m: Map<Seq<char>, Seq<Seq<Seq<char>>>>,
    tag: Seq<char>,
    batch: Seq<Seq<Seq<char>>>,
) -> bool {
    !m.dom().contains(tag) || batch_all_in(m[tag], batch)
}

/// Whether a batch removal actually changes the store: the tag is defined,
/// the batch non-empty, and every batch row present.  This is the answer
/// the broker reports, correcting the engine's convention on the two no-op
/// corners above.
pub open spec fn remove_batch_changed(
    m: Map<Seq<char>, Seq<Seq<Seq<char>>>>,
    tag: Seq<char>,
    batch: Seq<Seq<Seq<char>>>,
) -> bool {
    m.dom().contains(tag) && batch.len() > 0 && batch_all_in(m[tag], batch)
}

/// The store after a batch removal: the batch rows dropped when all were
/// present, untouched otherwise.
pub open spec fn remove_batch(
    m: Map<Seq<char>, Seq<Seq<Seq<char>>>>,
    tag: Seq<char>,
    batch: Seq<Seq<Seq<char>>>,
) -> Map<Seq<char>, Seq<Seq<Seq<char>>>> {
    if m.dom().contains(tag) && batch_all_in(m[tag], batch) {
        m.insert(tag, m[tag].filter(|r: Seq<Seq<char>>| !batch.contains(r)))
    } else {
        m
    }
}

// Filtered removal deletes every row that agrees with a pattern of field
// values placed at a field offset; an empty string in the pattern matches
// anything.  The engine tests the pattern left to right, skips empty
// entries, and stops at the first disagreement -- and it reads `row[offset
// + i]` without a bounds check, so a row that runs out before the pattern
// does (without an earlier disagreement) makes it panic.  `scan_ok` says
// the test of one row completes; the broker refuses a filtered command
// whose pattern some stored row cannot be tested against.

/// The left-to-right pattern test of one row completes from position `i` on
/// without reading past the row's end.
pub open spec fn scan_ok(
    row: Seq<Seq<char>>,
    offset: int,
    vals: Seq<Seq<char>>,
    i: int,
) -> bool
    decreases vals.len() - i,
{
    if i >= vals.len() {
        true
    } else if vals[i].len() == 0 {
        scan_ok(row, offset, vals, i + 1)
    } else if offset + i >= row.len() || offset + i < 0 {
        false
    } else if row[offset + i] != vals[i] {
        true
    } else {
        scan_ok(row, offset, vals, i + 1)
    }
}

/// The row agrees with the whole pattern from position `i` on.
pub open spec fn row_matches(
    row: Seq<Seq<char>>,
    offset: int,
    vals: Seq<Seq<char>>,
    i: int,
) -> bool
    decreases vals.len() - i,
{
    if i >= vals.len() {
        true
    } else if vals[i].len() == 0 {
        row_matches(row, offset, vals, i + 1)
    } else if offset + i >= row.len() || offset + i < 0 {
        false
    } else if row[offset + i] != vals[i] {
        false
    } else {
        row_matches(row, offset, vals, i + 1)
    }
}

/// Every row the tag holds can be tested against the pattern.
pub open spec fn all_rows_scan_ok(
    m: Map<Seq<char>, Seq<Seq<Seq<char>>>>,
    tag: Seq<char>,
    offset: int,
    vals: Seq<Seq<char>>,
) -> bool {
    forall|i: int|
        0 <= i < sec_rows(m, tag).len() ==> scan_ok(#[trigger] sec_rows(m, tag)[i], offset, vals, 0)
}

/// Whether a filtered removal reports a change: the pattern is non-empty,
/// the tag defined, and some row agrees with the pattern.
pub open spec fn filtered_result(
    m: Map<Seq<char>, Seq<Seq<Seq<char>>>>,
    tag: Seq<char>,
    offset: int,
    vals: Seq<Seq<char>>,
) -> bool {
    vals.len() > 0 && m.dom().contains(tag) && exists|i: int|
        0 <= i < m[tag].len() && row_matches(#[trigger] m[tag][i], offset, vals, 0)
}

/// The store after a filtered removal: the agreeing rows dropped, the order
/// of the rest kept.  An empty pattern removes nothing.
pub open spec fn filtered_remove(
    m: Map<Seq<char>, Seq<Seq<Seq<char>>>>,
    tag: Seq<char>,
    offset: int,
    vals: Seq<Seq<char>>,
) -> Map<Seq<char>, Seq<Seq<Seq<char>>>> {
    if vals.len() == 0 || !m.dom().contains(tag) {
        m
    } else {
        m.insert(tag, m[tag].filter(|r: Seq<Seq<char>>| !row_matches(r, offset, vals, 0)))
    }
}

/// Every row the tag holds has at least `k` fields.
pub open spec fn rows_min_len(
    m: Map<Seq<char>, Seq<Seq<Seq<char>>>>,
    tag: Seq<char>,
    k: int,
) -> bool {
    forall|i: int| 0 <= i < sec_rows(m, tag).len() ==> #[trigger] sec_rows(m, tag)[i].len() >= k
}

/// Tests that every row of a fetched section has at least `k` fields, so a
/// query that reads the first `k` fields of each row unchecked is known not
/// to fault before it is tried.
pub fn check_rows_len(rows: &Vec<Vec<String>>, k: usize) -> (ok: bool)
    ensures
        ok == (forall|i: int|
            0 <= i < rows.deep_view().len() ==> #[trigger] rows.deep_view()[i].len() >= k),
{
    let mut i: usize = 0;
    while i < rows.len()
        invariant
            0 <= i <= rows.len(),
            rows.deep_view().len() == rows@.len(),
            forall|j: int| 0 <= j < i ==> #[trigger] rows.deep_view()[j].len() >= k,
        decreases rows.len() - i,
    {
        proof {
            assert(rows.deep_view()[i as int] == rows@[i as int].deep_view());
        }
        if rows[i].len() < k {
            return false;
        }
        i = i + 1;
    }
    true
}

/// Tests that one row can be scanned against the pattern: the executable
/// counterpart of `scan_ok`.
pub fn check_row_scan(row: &Vec<String>, offset: usize, vals: &Vec<String>) -> (ok: bool)
    ensures
        ok == scan_ok(row.deep_view(), offset as int, vals.deep_view(), 0),
{
    let mut i: usize = 0;
    loop
        invariant
            0 <= i <= vals.len(),
            vals.deep_view().len() == vals@.len(),
            row.deep_view().len() == row@.len(),
            scan_ok(row.deep_view(), offset as int, vals.deep_view(), 0) == scan_ok(
                row.deep_view(),
                offset as int,
                vals.deep_view(),
                i as int,
            ),
        decreases vals.len() - i,
    {
        if i >= vals.len() {
            return true;
        }
        let v = &vals[i];
        proof {
            assert(vals.deep_view()[i as int] == vals@[i as int].deep_view());
        }
        if v.as_str().unicode_len() == 0 {
            i = i + 1;
            continue ;
        }
        if offset >= row.len() || i >= row.len() - offset {
            return false;
        }
        proof {
            assert(row.deep_view()[offset + i] == row@[offset + i].deep_view());
        }
        if !(row[offset + i] == *v) {
            return true;
        }
        i = i + 1;
    }
}

/// Tests that every row of a fetched section can be scanned against the
/// pattern, so a filtered removal is known not to fault before it is tried.
pub fn check_rows_scan(rows: &Vec<Vec<String>>, offset: usize, vals: &Vec<String>) -> (ok: bool)
    ensures
        ok == (forall|i: int|
            0 <= i < rows.deep_view().len() ==> scan_ok(
                #[trigger] rows.deep_view()[i],
                offset as int,
                vals.deep_view(),
                0,
            )),
{
    let mut i: usize = 0;
    while i < rows.len()
        invariant
            0 <= i <= rows.len(),
            rows.deep_view().len() == rows@.len(),
            forall|j: int|
                0 <= j < i ==> scan_ok(
                    #[trigger] rows.deep_view()[j],
                    offset as int,
                    vals.deep_view(),
                    0,
                ),
        decreases rows.len() - i,
    {
        proof {
            assert(rows.deep_view()[i as int] == rows@[i as int].deep_view());
        }
        if !check_row_scan(&rows[i], offset, vals) {
            return false;
        }
        i = i + 1;
    }
    true
}

} // verus!
