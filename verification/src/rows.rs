//! Rows of a relation in the order in which they were written, and the two
//! ways in which a query reads them: the first row that a condition
//! selects, and the rows that are left when the selected ones are deleted.
use vstd::prelude::*;

verus! {

/// The first of `rows` that `selects` holds of, if there is one.
pub open spec fn first_where<A>(rows: Seq<A>, selects: spec_fn(A) -> bool) -> Option<A>
    decreases rows.len(),
{
    if rows.len() == 0 {
        None
    } else {
        match first_where(rows.drop_last(), selects) {
            Some(row) => Some(row),
            None => if selects(rows.last()) {
                Some(rows.last())
            } else {
                None
            },
        }
    }
}

/// The rows that `selects` does not hold of, in their order.
pub open spec fn without<A>(rows: Seq<A>, selects: spec_fn(A) -> bool) -> Seq<A> {
    rows.filter(|row: A| !selects(row))
}

/// A row that is found is one of the rows, and the condition holds of it.
pub proof fn found_row_is_selected<A>(rows: Seq<A>, selects: spec_fn(A) -> bool)
    ensures
        first_where(rows, selects) matches Some(row) ==> selects(row) && rows.contains(row),
    decreases rows.len(),
{
    if rows.len() > 0 {
        found_row_is_selected(rows.drop_last(), selects);
        match first_where(rows.drop_last(), selects) {
            Some(row) => {
                let i = choose|i: int| 0 <= i < rows.drop_last().len() && rows.drop_last()[i] == row;
                assert(rows[i] == row);
            },
            None => {
                assert(rows[rows.len() - 1] == rows.last());
            },
        }
    }
}

/// Nothing is found exactly when the condition holds of no row.
pub proof fn nothing_found_iff_none_selected<A>(rows: Seq<A>, selects: spec_fn(A) -> bool)
    ensures
        first_where(rows, selects) is None <==> forall|i: int|
            0 <= i < rows.len() ==> !selects(#[trigger] rows[i]),
    decreases rows.len(),
{
    if rows.len() > 0 {
        nothing_found_iff_none_selected(rows.drop_last(), selects);
        if first_where(rows, selects) is None {
            assert forall|i: int| 0 <= i < rows.len() implies !selects(#[trigger] rows[i]) by {
                if i < rows.len() - 1 {
                    assert(rows.drop_last()[i] == rows[i]);
                }
            }
        } else if first_where(rows.drop_last(), selects) is Some {
            let i = choose|i: int|
                0 <= i < rows.drop_last().len() && selects(#[trigger] rows.drop_last()[i]);
            assert(selects(rows[i]));
        }
    }
}

/// What is found among the first rows is found among all of them.
pub proof fn found_in_prefix_is_found<A>(rows: Seq<A>, selects: spec_fn(A) -> bool, k: int)
    requires
        0 <= k <= rows.len(),
        first_where(rows.take(k), selects) is Some,
    ensures
        first_where(rows, selects) == first_where(rows.take(k), selects),
    decreases rows.len() - k,
{
    if k == rows.len() {
        assert(rows.take(k) =~= rows);
    } else {
        assert(rows.take(k + 1).drop_last() =~= rows.take(k));
        found_in_prefix_is_found(rows, selects, k + 1);
    }
}

/// A row written last is found only if no earlier row is.
pub proof fn first_where_of_push<A>(rows: Seq<A>, row: A, selects: spec_fn(A) -> bool)
    ensures
        first_where(rows.push(row), selects) == match first_where(rows, selects) {
            Some(found) => Some(found),
            None => if selects(row) {
                Some(row)
            } else {
                None
            },
        },
{
    assert(rows.push(row).drop_last() =~= rows);
}

/// Deleting among rows of which one was written last.
pub proof fn without_of_push<A>(rows: Seq<A>, row: A, selects: spec_fn(A) -> bool)
    ensures
        without(rows.push(row), selects) == if selects(row) {
            without(rows, selects)
        } else {
            without(rows, selects).push(row)
        },
{
    rows.lemma_filter_push(row, |row: A| !selects(row));
}

/// Once the selected rows are deleted, the condition finds nothing.
pub proof fn nothing_found_after_delete<A>(rows: Seq<A>, selects: spec_fn(A) -> bool)
    ensures
        first_where(without(rows, selects), selects) is None,
{
    let kept = without(rows, selects);
    let keeps = |row: A| !selects(row);
    assert forall|i: int| 0 <= i < kept.len() implies !selects(#[trigger] kept[i]) by {
        rows.lemma_filter_pred(keeps, i);
    }
    nothing_found_iff_none_selected(kept, selects);
}

/// Deleting where nothing is selected leaves the rows as they are.
pub proof fn delete_of_none_changes_nothing<A>(rows: Seq<A>, selects: spec_fn(A) -> bool)
    requires
        first_where(rows, selects) is None,
    ensures
        without(rows, selects) == rows,
    decreases rows.len(),
{
    reveal(Seq::filter);
    let keeps = |row: A| !selects(row);
    if rows.len() > 0 {
        delete_of_none_changes_nothing(rows.drop_last(), selects);
        assert(rows.drop_last().push(rows.last()) =~= rows);
    }
}

/// Whether `apart` holds of every two of the rows, the earlier row first.
pub open spec fn pairwise<A>(rows: Seq<A>, apart: spec_fn(A, A) -> bool) -> bool {
    forall|i: int, j: int|
        0 <= i < j < rows.len() ==> apart(#[trigger] rows[i], #[trigger] rows[j])
}

/// A row that is left after a delete was there before it.
pub proof fn kept_row_was_there<A>(rows: Seq<A>, selects: spec_fn(A) -> bool, i: int)
    requires
        0 <= i < without(rows, selects).len(),
    ensures
        rows.contains(without(rows, selects)[i]),
{
    let kept = without(rows, selects);
    assert(kept.contains(kept[i]));
    rows.lemma_filter_contains_rev(|row: A| !selects(row), kept[i]);
}

/// Rows that are pairwise apart stay so when a row is written that is apart
/// from each of them.
pub proof fn pairwise_of_push<A>(rows: Seq<A>, row: A, apart: spec_fn(A, A) -> bool)
    requires
        pairwise(rows, apart),
        forall|i: int| 0 <= i < rows.len() ==> apart(#[trigger] rows[i], row),
    ensures
        pairwise(rows.push(row), apart),
{
}

/// Rows that are pairwise apart stay so when some of them are deleted.
pub proof fn pairwise_survives_delete<A>(
    rows: Seq<A>,
    apart: spec_fn(A, A) -> bool,
    selects: spec_fn(A) -> bool,
)
    requires
        pairwise(rows, apart),
    ensures
        pairwise(without(rows, selects), apart),
    decreases rows.len(),
{
    if rows.len() == 0 {
        reveal(Seq::filter);
    } else {
        let earlier = rows.drop_last();
        let last = rows.last();
        assert(earlier.push(last) =~= rows);
        assert(pairwise(earlier, apart)) by {
            assert forall|i: int, j: int| 0 <= i < j < earlier.len() implies apart(
                #[trigger] earlier[i],
                #[trigger] earlier[j],
            ) by {
                assert(apart(rows[i], rows[j]));
            }
        }
        pairwise_survives_delete(earlier, apart, selects);
        without_of_push(earlier, last, selects);
        if !selects(last) {
            let kept = without(earlier, selects);
            assert forall|i: int| 0 <= i < kept.len() implies apart(#[trigger] kept[i], last) by {
                kept_row_was_there(earlier, selects, i);
                let k = choose|k: int| 0 <= k < earlier.len() && earlier[k] == kept[i];
                assert(apart(rows[k], rows[rows.len() - 1]));
            }
            pairwise_of_push(kept, last, apart);
        }
    }
}

} // verus!
