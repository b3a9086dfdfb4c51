use vstd::prelude::*;

use crate::error::{
    delete_lookup_error, existence_check_error, id_context, id_not_found_context,
    is_not_found_with, lookup_error, missing_id_context, missing_name_context, save_error,
    ExerciseError, ExerciseResult,
};
use crate::model::{Exercise, ExerciseView};
use crate::repository::{
    has_id, has_live_id, has_live_name, live_exercises, names_match, views, well_formed,
    ExerciseRepository, Row,
};

verus! {

/// `e` with its identifier set to `id`.
pub open spec fn with_id(e: ExerciseView, id: i64) -> ExerciseView {
    ExerciseView { id: Some(id), ..e }
}

/// `e0` was stored as a new row, and `e1` is `e0` with the new identifier.
pub open spec fn saved_new(rows0: Seq<Row>, rows1: Seq<Row>, e0: ExerciseView, e1: ExerciseView) -> bool {
    match e1.id {
        Some(id) => {
            &&& !has_id(rows0, id)
            &&& e1 == with_id(e0, id)
            &&& rows1 == rows0.push(Row::live_row(id, e0))
        },
        None => false,
    }
}

/// The row that is not deleted under `e.id` was overwritten with `e`.
pub open spec fn updated(rows0: Seq<Row>, rows1: Seq<Row>, e: ExerciseView) -> bool {
    match e.id {
        Some(id) => exists|i: int|
            {
                &&& 0 <= i < rows0.len()
                &&& #[trigger] rows0[i].id == id
                &&& rows0[i].live()
                &&& rows1 == rows0.update(i, Row::live_row(id, e))
            },
        None => false,
    }
}

/// What a save of `e0` does to the rows `rows0` and to the exercise, which
/// becomes `e1`: a new exercise is created and gets its identifier; an
/// exercise with an identifier is first checked for, then updated.  A failed
/// save changes nothing.
pub open spec fn save_outcome(
    rows0: Seq<Row>,
    rows1: Seq<Row>,
    e0: ExerciseView,
    e1: ExerciseView,
    r: ExerciseResult<()>,
) -> bool {
    &&& match r {
        Ok(_) => match e0.id {
            None => saved_new(rows0, rows1, e0, e1),
            Some(_) => e1 == e0 && updated(rows0, rows1, e0),
        },
        Err(err) => {
            &&& rows1 == rows0
            &&& e1 == e0
            &&& match e0.id {
                None => err == ExerciseError::SaveFailed || err == ExerciseError::UnknownError,
                Some(id) => {
                    ||| is_not_found_with(err, missing_id_context()) && !has_live_id(rows0, id)
                    ||| err == ExerciseError::SaveFailed && has_live_id(rows0, id)
                    ||| err == ExerciseError::UnknownError
                },
            }
        },
    }
    &&& e0.id is None && has_live_name(rows0, e0.name) ==> r == Err::<(), ExerciseError>(
        ExerciseError::SaveFailed,
    )
}

/// `x` is the exercise of a row that is not deleted and whose name matches `name`.
pub open spec fn found_by_name(rows: Seq<Row>, name: Seq<char>, x: ExerciseView) -> bool {
    exists|i: int|
        {
            &&& 0 <= i < rows.len()
            &&& #[trigger] rows[i].live()
            &&& names_match(rows[i].name, name)
            &&& x == rows[i].exercise()
        }
}

/// `x` is the exercise of the row that is not deleted under `id`.
pub open spec fn found_by_id(rows: Seq<Row>, id: i64, x: ExerciseView) -> bool {
    exists|i: int|
        {
            &&& 0 <= i < rows.len()
            &&& #[trigger] rows[i].id == id
            &&& rows[i].live()
            &&& x == rows[i].exercise()
        }
}

/// A lookup by name returns the matching exercise, or reports it missing
/// (with the name as context) only when there is none, or fails to look.
pub open spec fn name_lookup_outcome(rows: Seq<Row>, name: Seq<char>, r: ExerciseResult<Exercise>) -> bool {
    match r {
        Ok(x) => found_by_name(rows, name, x@),
        Err(err) => {
            ||| is_not_found_with(err, name) && !has_live_name(rows, name)
            ||| err == ExerciseError::LookupError
        },
    }
}

/// A lookup by identifier, like a lookup by name.
pub open spec fn id_lookup_outcome(rows: Seq<Row>, id: i64, r: ExerciseResult<Exercise>) -> bool {
    match r {
        Ok(x) => found_by_id(rows, id, x@),
        Err(err) => {
            ||| is_not_found_with(err, id_context(id)) && !has_live_id(rows, id)
            ||| err == ExerciseError::LookupError
        },
    }
}

/// A list holds the exercises of the rows that are not deleted, in any order.
pub open spec fn list_outcome(rows: Seq<Row>, r: ExerciseResult<Vec<Exercise>>) -> bool {
    match r {
        Ok(v) => views(v@).to_multiset() == live_exercises(rows).to_multiset(),
        Err(err) => err == ExerciseError::QueryError,
    }
}

/// A delete by name soft-deletes the row that is not deleted and whose name
/// matches; a failed delete changes nothing.
pub open spec fn delete_outcome(rows0: Seq<Row>, rows1: Seq<Row>, name: Seq<char>, r: ExerciseResult<()>) -> bool {
    match r {
        Ok(_) => exists|i: int|
            {
                &&& 0 <= i < rows0.len()
                &&& #[trigger] rows0[i].live()
                &&& names_match(rows0[i].name, name)
                &&& rows1 == rows0.update(i, rows0[i].soft_deleted())
            },
        Err(err) => {
            &&& rows1 == rows0
            &&& {
                ||| is_not_found_with(err, missing_name_context()) && !has_live_name(rows0, name)
                ||| err == ExerciseError::QueryError
                ||| err == ExerciseError::DeleteFailed
            }
        },
    }
}

/// The operations that callers perform on exercises.
pub trait ExerciseManagement {
    /// The rows of the storage behind the manager.
    spec fn rows(&self) -> Seq<Row>;

    /// Creates `exercise` when it has no identifier, and then sets its
    /// identifier; otherwise updates the stored exercise with that identifier.
    fn save(&mut self, exercise: &mut Exercise) -> (r: ExerciseResult<()>)
        requires
            well_formed(old(self).rows()),
        ensures
            well_formed(final(self).rows()),
            save_outcome(old(self).rows(), final(self).rows(), old(exercise)@, final(exercise)@, r),
    ;

    /// The exercise whose name matches `name` without regard to case.
    fn get_by_name(&self, name: String) -> (r: ExerciseResult<Exercise>)
        requires
            well_formed(self.rows()),
        ensures
            name_lookup_outcome(self.rows(), name@, r),
    ;

    /// The exercise stored under `id`.
    fn get_by_id(&self, id: i64) -> (r: ExerciseResult<Exercise>)
        requires
            well_formed(self.rows()),
        ensures
            id_lookup_outcome(self.rows(), id, r),
    ;

    /// All exercises that are not deleted.
    fn list(&self) -> (r: ExerciseResult<Vec<Exercise>>)
        requires
            well_formed(self.rows()),
        ensures
            list_outcome(self.rows(), r),
    ;

    /// Soft-deletes the exercise whose name matches `name`.
    fn delete(&mut self, name: String) -> (r: ExerciseResult<()>)
        requires
            well_formed(old(self).rows()),
        ensures
            well_formed(final(self).rows()),
            delete_outcome(old(self).rows(), final(self).rows(), name@, r),
    ;
}

/// Manages exercises on top of a repository, translating each repository
/// outcome into a domain outcome.
pub struct ExerciseManager<T: ExerciseRepository> {
    pub repo: T,
}

impl<T: ExerciseRepository> ExerciseManager<T> {
    pub fn new(repo: T) -> (r: ExerciseResult<Self>)
        ensures
            r matches Ok(m) && m.repo == repo,
    {
        Ok(ExerciseManager { repo })
    }

    /// The storage behind this manager.
    pub fn repository(&self) -> (r: &T)
        ensures
            *r == self.repo,
    {
        &self.repo
    }

    /// Creates a new exercise and gives it the identifier that storage chose.
    fn process_save(&mut self, exercise: &mut Exercise) -> (r: ExerciseResult<()>)
        requires
            well_formed(old(self).repo.rows()),
            old(exercise).id is None,
        ensures
            well_formed(final(self).repo.rows()),
            save_outcome(old(self).repo.rows(), final(self).repo.rows(), old(exercise)@, final(exercise)@, r),
    {
        match self.repo.create(exercise) {
            Ok(id) => {
                exercise.id = Some(id);
                proof {
                    assert(final(exercise)@ == with_id(old(exercise)@, id));
                }
                Ok(())
            },
            Err(e) => Err(save_error(&e)),
        }
    }
}

impl<T: ExerciseRepository> ExerciseManagement for ExerciseManager<T> {
    open spec fn rows(&self) -> Seq<Row> {
        self.repo.rows()
    }

    fn save(&mut self, exercise: &mut Exercise) -> (r: ExerciseResult<()>) {
        match exercise.id {
            None => self.process_save(exercise),
            Some(id) => {
                // The check and the update are separate requests to storage.
                match self.repo.query_by_id(id) {
                    Ok(_) => match self.repo.update(exercise) {
                        Ok(_) => Ok(()),
                        Err(e) => Err(save_error(&e)),
                    },
                    Err(e) => Err(existence_check_error(&e)),
                }
            },
        }
    }

    fn get_by_name(&self, name: String) -> (r: ExerciseResult<Exercise>) {
        match self.repo.query_by_name(name.clone()) {
            Ok(e) => Ok(e),
            Err(e) => Err(lookup_error(&e, name)),
        }
    }

    fn get_by_id(&self, id: i64) -> (r: ExerciseResult<Exercise>) {
        match self.repo.query_by_id(id) {
            Ok(e) => Ok(e),
            Err(e) => Err(lookup_error(&e, id_not_found_context(id))),
        }
    }

    fn list(&self) -> (r: ExerciseResult<Vec<Exercise>>) {
        match self.repo.list() {
            Ok(exercises) => Ok(exercises),
            Err(_) => Err(ExerciseError::QueryError),
        }
    }

    fn delete(&mut self, name: String) -> (r: ExerciseResult<()>) {
        match self.repo.query_by_name(name) {
            Ok(exercise) => match exercise.id {
                Some(id) => match self.repo.delete(id) {
                    Ok(_) => Ok(()),
                    Err(_) => Err(ExerciseError::DeleteFailed),
                },
                // A queried exercise always carries its identifier: this arm
                // is proved unreachable.
                None => Err(ExerciseError::UnknownError),
            },
            Err(e) => Err(delete_lookup_error(&e)),
        }
    }
}

} // verus!
