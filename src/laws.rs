use vstd::prelude::*;

use crate::error::{is_not_found_with, missing_id_context, ExerciseError, ExerciseResult};
use crate::manager::{
    delete_outcome, found_by_name, id_lookup_outcome, list_outcome, name_lookup_outcome,
    save_outcome,
};
use crate::memory::lemma_names_match_shared;
use crate::model::{Exercise, ExerciseView};
use crate::repository::{has_live_id, has_live_name, live_exercises, names_match, views, well_formed, Row};

verus! {

broadcast use vstd::seq_lib::group_to_multiset_ensures;

/// `x` is the exercise of some row of `rows` that is not deleted.
pub open spec fn from_live_row(rows: Seq<Row>, x: ExerciseView) -> bool {
    exists|i: int| 0 <= i < rows.len() && rows[i].live() && #[trigger] rows[i].exercise() == x
}

/// Every exercise that a list of `rows` holds comes from a row that is not deleted.
pub proof fn lemma_live_exercises_come_from_live_rows(rows: Seq<Row>)
    ensures
        forall|k: int|
            0 <= k < live_exercises(rows).len() ==> from_live_row(rows, #[trigger] live_exercises(rows)[k]),
    decreases rows.len(),
{
    if rows.len() > 0 {
        let prev = rows.drop_last();
        lemma_live_exercises_come_from_live_rows(prev);
        assert forall|k: int| 0 <= k < live_exercises(rows).len() implies from_live_row(
            rows,
            #[trigger] live_exercises(rows)[k],
        ) by {
            if k < live_exercises(prev).len() {
                let i = choose|i: int|
                    0 <= i < prev.len() && prev[i].live() && #[trigger] prev[i].exercise()
                        == live_exercises(prev)[k];
                assert(rows[i] == prev[i]);
            } else {
                assert(rows[rows.len() - 1].exercise() == live_exercises(rows)[k]);
            }
        }
    }
}

/// Flagging one row that is not deleted takes exactly one exercise out of the list.
pub proof fn lemma_soft_delete_shrinks_live(rows: Seq<Row>, i: int)
    requires
        0 <= i < rows.len(),
        rows[i].live(),
    ensures
        live_exercises(rows.update(i, rows[i].soft_deleted())).len() + 1 == live_exercises(rows).len(),
    decreases rows.len(),
{
    let after = rows.update(i, rows[i].soft_deleted());
    if i == rows.len() - 1 {
        assert(after.drop_last() =~= rows.drop_last());
    } else {
        lemma_soft_delete_shrinks_live(rows.drop_last(), i);
        assert(after.drop_last() =~= rows.drop_last().update(i, rows[i].soft_deleted()));
    }
}

/// Saving a new exercise gives it an identifier, under which a row that is
/// not deleted now stands; a lookup by that identifier then returns that
/// exercise, and never reports it missing.
pub proof fn law_saved_exercise_is_found_by_its_id(
    rows0: Seq<Row>,
    rows1: Seq<Row>,
    e0: ExerciseView,
    e1: ExerciseView,
)
    requires
        well_formed(rows0),
        e0.id is None,
        save_outcome(rows0, rows1, e0, e1, Ok(())),
    ensures
        e1.id is Some,
        forall|id: i64, found: ExerciseResult<Exercise>|
            e1.id == Some(id) && #[trigger] id_lookup_outcome(rows1, id, found) ==> {
                &&& has_live_id(rows1, id)
                &&& found matches Ok(x) ==> x@ == e1
                &&& found matches Err(err) ==> err == ExerciseError::LookupError
            },
{
    let id = e1.id->Some_0;
    assert(rows1[rows0.len() as int].id == id);
    assert forall|found: ExerciseResult<Exercise>| #[trigger] id_lookup_outcome(rows1, id, found) implies {
        &&& has_live_id(rows1, id)
        &&& found matches Ok(x) ==> x@ == e1
        &&& found matches Err(err) ==> err == ExerciseError::LookupError
    } by {
        if found is Ok {
            let i = choose|i: int|
                0 <= i < rows1.len() && #[trigger] rows1[i].id == id && rows1[i].live()
                    && found->Ok_0@ == rows1[i].exercise();
            if i < rows0.len() {
                assert(rows0[i] == rows1[i]);
            }
        }
    }
}

/// A lookup by name does not depend on case: names that match find the same
/// exercise, and one is missing exactly when the other is.
pub proof fn law_name_lookup_ignores_case(
    rows: Seq<Row>,
    a: Seq<char>,
    b: Seq<char>,
    ra: ExerciseResult<Exercise>,
    rb: ExerciseResult<Exercise>,
)
    requires
        well_formed(rows),
        names_match(a, b),
        name_lookup_outcome(rows, a, ra),
        name_lookup_outcome(rows, b, rb),
    ensures
        has_live_name(rows, a) == has_live_name(rows, b),
        ra is Ok && rb is Ok ==> ra->Ok_0@ == rb->Ok_0@,
{
    lemma_names_match_shared(a, a, b);
    if has_live_name(rows, a) {
        let i = choose|i: int| 0 <= i < rows.len() && rows[i].live() && names_match(#[trigger] rows[i].name, a);
        lemma_names_match_shared(rows[i].name, b, a);
    }
    if has_live_name(rows, b) {
        let i = choose|i: int| 0 <= i < rows.len() && rows[i].live() && names_match(#[trigger] rows[i].name, b);
        lemma_names_match_shared(rows[i].name, a, b);
    }
    if ra is Ok && rb is Ok {
        let i = choose|i: int|
            0 <= i < rows.len() && #[trigger] rows[i].live() && names_match(rows[i].name, a)
                && ra->Ok_0@ == rows[i].exercise();
        let j = choose|j: int|
            0 <= j < rows.len() && #[trigger] rows[j].live() && names_match(rows[j].name, b)
                && rb->Ok_0@ == rows[j].exercise();
        lemma_names_match_shared(rows[j].name, a, b);
        lemma_names_match_shared(rows[i].name, rows[j].name, a);
    }
}

/// Saving an exercise whose identifier is under no row that is not deleted
/// fails, changes no row, and leaves the exercise as it was; the failure is
/// the not-found outcome unless storage itself failed.
pub proof fn law_save_with_unknown_id_writes_nothing(
    rows0: Seq<Row>,
    rows1: Seq<Row>,
    e0: ExerciseView,
    e1: ExerciseView,
    id: i64,
    r: ExerciseResult<()>,
)
    requires
        well_formed(rows0),
        e0.id == Some(id),
        !has_live_id(rows0, id),
        save_outcome(rows0, rows1, e0, e1, r),
    ensures
        rows1 == rows0,
        e1 == e0,
        r matches Err(err) && (is_not_found_with(err, missing_id_context())
            || err == ExerciseError::UnknownError),
{
}

/// After a delete by name succeeds, no lookup by that name finds the
/// exercise and no list holds it, while its row is still stored, flagged
/// deleted.
pub proof fn law_deleted_exercise_is_hidden_but_kept(rows0: Seq<Row>, rows1: Seq<Row>, name: Seq<char>)
    requires
        well_formed(rows0),
        delete_outcome(rows0, rows1, name, Ok(())),
    ensures
        !has_live_name(rows1, name),
        forall|r: ExerciseResult<Exercise>| #[trigger] name_lookup_outcome(rows1, name, r) ==> r is Err,
        forall|k: int|
            0 <= k < live_exercises(rows1).len() ==> !names_match(#[trigger] live_exercises(rows1)[k].name, name),
        rows1.len() == rows0.len(),
        exists|i: int|
            {
                &&& 0 <= i < rows1.len()
                &&& #[trigger] rows1[i].deleted
                &&& rows0[i].live()
                &&& rows1[i].id == rows0[i].id
                &&& names_match(rows1[i].name, name)
            },
{
    let i = choose|i: int|
        {
            &&& 0 <= i < rows0.len()
            &&& #[trigger] rows0[i].live()
            &&& names_match(rows0[i].name, name)
            &&& rows1 == rows0.update(i, rows0[i].soft_deleted())
        };
    assert(rows1[i].deleted);
    assert forall|j: int| 0 <= j < rows1.len() && rows1[j].live() implies !names_match(
        #[trigger] rows1[j].name,
        name,
    ) by {
        assert(j != i);
        assert(rows1[j] == rows0[j]);
        if names_match(rows0[j].name, name) {
            lemma_names_match_shared(rows0[i].name, rows0[j].name, name);
        }
    }
    assert forall|r: ExerciseResult<Exercise>| #[trigger] name_lookup_outcome(rows1, name, r) implies r is Err by {
        if r is Ok {
            assert(found_by_name(rows1, name, r->Ok_0@));
        }
    }
    lemma_live_exercises_come_from_live_rows(rows1);
    assert forall|k: int| 0 <= k < live_exercises(rows1).len() implies !names_match(
        #[trigger] live_exercises(rows1)[k].name,
        name,
    ) by {
        let j = choose|j: int|
            0 <= j < rows1.len() && rows1[j].live() && #[trigger] rows1[j].exercise()
                == live_exercises(rows1)[k];
        assert(!names_match(rows1[j].name, name));
    }
}

/// A list holds exactly as many exercises as there are rows that are not
/// deleted, and each of them comes from such a row: deleted rows never appear.
pub proof fn law_list_holds_only_live_rows(rows: Seq<Row>, v: Vec<Exercise>)
    requires
        list_outcome(rows, Ok(v)),
    ensures
        v@.len() == live_exercises(rows).len(),
        forall|k: int| 0 <= k < v@.len() ==> from_live_row(rows, #[trigger] v@[k]@),
{
    let vs = views(v@);
    let ls = live_exercises(rows);
    assert(vs.len() == vs.to_multiset().len());
    assert(ls.len() == ls.to_multiset().len());
    lemma_live_exercises_come_from_live_rows(rows);
    assert forall|k: int| 0 <= k < v@.len() implies from_live_row(rows, #[trigger] v@[k]@) by {
        assert(vs[k] == v@[k]@);
        assert(vs.contains(vs[k]));
        assert(vs.to_multiset().contains(vs[k]));
        assert(ls.contains(vs[k]));
        let m = choose|m: int| 0 <= m < ls.len() && ls[m] == vs[k];
        assert(0 <= m < live_exercises(rows).len());
        assert(from_live_row(rows, live_exercises(rows)[m]));
    }
}

/// A successful save of a new exercise adds one exercise to the list.
pub proof fn law_save_new_lists_one_more(rows0: Seq<Row>, rows1: Seq<Row>, e0: ExerciseView, e1: ExerciseView)
    requires
        e0.id is None,
        save_outcome(rows0, rows1, e0, e1, Ok(())),
    ensures
        live_exercises(rows1).len() == live_exercises(rows0).len() + 1,
{
    assert(rows1.drop_last() =~= rows0);
}

/// A successful delete takes one exercise out of the list.
pub proof fn law_delete_lists_one_fewer(rows0: Seq<Row>, rows1: Seq<Row>, name: Seq<char>)
    requires
        delete_outcome(rows0, rows1, name, Ok(())),
    ensures
        live_exercises(rows1).len() + 1 == live_exercises(rows0).len(),
{
    let i = choose|i: int|
        {
            &&& 0 <= i < rows0.len()
            &&& #[trigger] rows0[i].live()
            &&& names_match(rows0[i].name, name)
            &&& rows1 == rows0.update(i, rows0[i].soft_deleted())
        };
    lemma_soft_delete_shrinks_live(rows0, i);
}

/// Once an exercise is saved, saving a new one whose name differs from it at
/// most in case fails with the save-failed outcome and changes nothing.
pub proof fn law_case_variant_name_is_refused(
    rows0: Seq<Row>,
    rows1: Seq<Row>,
    first0: ExerciseView,
    first1: ExerciseView,
    rows2: Seq<Row>,
    second0: ExerciseView,
    second1: ExerciseView,
    r: ExerciseResult<()>,
)
    requires
        first0.id is None,
        save_outcome(rows0, rows1, first0, first1, Ok(())),
        second0.id is None,
        names_match(second0.name, first0.name),
        save_outcome(rows1, rows2, second0, second1, r),
    ensures
        r == Err::<(), ExerciseError>(ExerciseError::SaveFailed),
        rows2 == rows1,
{
    let last = rows0.len() as int;
    lemma_names_match_shared(rows1[last].name, second0.name, first0.name);
    assert(rows1[last].live() && names_match(rows1[last].name, second0.name));
}

} // verus!
