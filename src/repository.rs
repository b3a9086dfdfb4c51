use vstd::prelude::*;

use crate::error::{RepositoryError, RepositoryResult};
use crate::model::{Exercise, ExerciseType, ExerciseView};

verus! {

/// A stored row: an exercise with its identifier and its soft-delete flag.
/// A deleted row stays in storage but no query or list returns it.
pub struct Row {
    pub id: i64,
    pub name: Seq<char>,
    pub description: Option<Seq<char>>,
    pub exercise_type: ExerciseType,
    pub deleted: bool,
}

impl Row {
    /// A row that is not deleted, holding `e` under `id`.
    pub open spec fn live_row(id: i64, e: ExerciseView) -> Row {
        Row {
            id,
            name: e.name,
            description: e.description,
            exercise_type: e.exercise_type,
            deleted: false,
        }
    }

    pub open spec fn live(self) -> bool {
        !self.deleted
    }

    /// The exercise that a query returns for this row.
    pub open spec fn exercise(self) -> ExerciseView {
        ExerciseView {
            id: Some(self.id),
            name: self.name,
            description: self.description,
            exercise_type: self.exercise_type,
        }
    }

    /// This row with its soft-delete flag set.
    pub open spec fn soft_deleted(self) -> Row {
        Row { deleted: true, ..self }
    }
}

/// A character as names are compared: ASCII letters without case.
pub open spec fn folded(c: char) -> u32 {
    if 65 <= (c as u32) <= 90 {
        (c as u32 + 32) as u32
    } else {
        c as u32
    }
}

/// Two names are the same name when they differ at most in the case of
/// ASCII letters.
pub open spec fn names_match(a: Seq<char>, b: Seq<char>) -> bool {
    &&& a.len() == b.len()
    &&& forall|i: int| 0 <= i < a.len() ==> #[trigger] folded(a[i]) == folded(b[i])
}

/// Some row, deleted or not, has identifier `id`.
pub open spec fn has_id(rows: Seq<Row>, id: i64) -> bool {
    exists|i: int| 0 <= i < rows.len() && #[trigger] rows[i].id == id
}

/// Some row that is not deleted has identifier `id`.
pub open spec fn has_live_id(rows: Seq<Row>, id: i64) -> bool {
    exists|i: int| 0 <= i < rows.len() && #[trigger] rows[i].id == id && rows[i].live()
}

/// Some row that is not deleted has a name that matches `name`.
pub open spec fn has_live_name(rows: Seq<Row>, name: Seq<char>) -> bool {
    exists|i: int| 0 <= i < rows.len() && rows[i].live() && names_match(#[trigger] rows[i].name, name)
}

/// Some row that is not deleted, under another identifier than `id`, has a
/// name that matches `name`.
pub open spec fn name_taken_by_other(rows: Seq<Row>, name: Seq<char>, id: i64) -> bool {
    exists|i: int|
        0 <= i < rows.len() && rows[i].live() && rows[i].id != id && names_match(
            #[trigger] rows[i].name,
            name,
        )
}

/// Identifiers are unique over all rows, and names over the rows that are
/// not deleted.
pub open spec fn well_formed(rows: Seq<Row>) -> bool {
    &&& forall|i: int, j: int| 0 <= i < j < rows.len() ==> rows[i].id != rows[j].id
    &&& forall|i: int, j: int|
        0 <= i < j < rows.len() && rows[i].live() && rows[j].live() ==> !names_match(
            rows[i].name,
            rows[j].name,
        )
}

/// The exercises of the rows that are not deleted, in storage order.
pub open spec fn live_exercises(rows: Seq<Row>) -> Seq<ExerciseView>
    decreases rows.len(),
{
    if rows.len() == 0 {
        Seq::empty()
    } else if rows.last().live() {
        live_exercises(rows.drop_last()).push(rows.last().exercise())
    } else {
        live_exercises(rows.drop_last())
    }
}

/// The rows of a repository, in the order they were created.
pub type Rows = Seq<Row>;

/// The values of a sequence of exercises.
pub open spec fn views(s: Seq<Exercise>) -> Seq<ExerciseView> {
    s.map_values(|e: Exercise| e@)
}

/// Storage for exercises.  Each implementation is modelled by its rows, in
/// the order they were created; the operations below are the whole contract
/// between the manager and the storage engine.  Any operation may fail for
/// reasons of the engine (an unreachable store, a failed query); a failed
/// operation leaves the rows as they were.
pub trait ExerciseRepository {
    /// The stored rows, deleted ones included.
    spec fn rows(&self) -> Rows;

    /// Inserts a new row for `exercise` and returns its new identifier.  A
    /// name that matches a row that is not deleted violates uniqueness and
    /// fails with a persistence error.
    fn create(&mut self, exercise: &Exercise) -> (r: RepositoryResult<i64>)
        requires
            well_formed(old(self).rows()),
        ensures
            well_formed(final(self).rows()),
            match r {
                Ok(id) => {
                    &&& !has_id(old(self).rows(), id)
                    &&& final(self).rows() == old(self).rows().push(Row::live_row(id, exercise@))
                },
                Err(_) => final(self).rows() == old(self).rows(),
            },
            has_live_name(old(self).rows(), exercise@.name) ==> r matches Err(
                RepositoryError::PersistenceError(_),
            ),
    ;

    /// Overwrites the row whose identifier is `exercise.id` with the fields of
    /// `exercise`.  Without a row that is not deleted under that identifier
    /// nothing is written; a name that matches another row that is not
    /// deleted violates uniqueness and fails with a persistence error.
    fn update(&mut self, exercise: &Exercise) -> (r: RepositoryResult<()>)
        requires
            well_formed(old(self).rows()),
        ensures
            well_formed(final(self).rows()),
            match r {
                Ok(_) => exists|i: int|
                    {
                        &&& 0 <= i < old(self).rows().len()
                        &&& exercise@.id == Some(#[trigger] old(self).rows()[i].id)
                        &&& old(self).rows()[i].live()
                        &&& final(self).rows() == old(self).rows().update(
                            i,
                            Row::live_row(old(self).rows()[i].id, exercise@),
                        )
                    },
                Err(_) => final(self).rows() == old(self).rows(),
            },
            r matches Err(RepositoryError::ItemNotFoundError) ==> (exercise@.id matches Some(id)
                ==> !has_live_id(old(self).rows(), id)),
            exercise@.id matches Some(id) && has_live_id(old(self).rows(), id) && name_taken_by_other(
                old(self).rows(),
                exercise@.name,
                id,
            ) ==> r matches Err(RepositoryError::PersistenceError(_)),
    ;

    /// The exercise whose name matches `name` without regard to case, among
    /// the rows that are not deleted.
    fn query_by_name(&self, name: String) -> (r: RepositoryResult<Exercise>)
        requires
            well_formed(self.rows()),
        ensures
            r matches Ok(e) ==> exists|i: int|
                {
                    &&& 0 <= i < self.rows().len()
                    &&& #[trigger] self.rows()[i].live()
                    &&& names_match(self.rows()[i].name, name@)
                    &&& e@ == self.rows()[i].exercise()
                },
            r matches Err(RepositoryError::ItemNotFoundError) ==> !has_live_name(
                self.rows(),
                name@,
            ),
    ;

    /// The exercise stored under `id`, among the rows that are not deleted.
    fn query_by_id(&self, id: i64) -> (r: RepositoryResult<Exercise>)
        requires
            well_formed(self.rows()),
        ensures
            r matches Ok(e) ==> exists|i: int|
                {
                    &&& 0 <= i < self.rows().len()
                    &&& #[trigger] self.rows()[i].id == id
                    &&& self.rows()[i].live()
                    &&& e@ == self.rows()[i].exercise()
                },
            r matches Err(RepositoryError::ItemNotFoundError) ==> !has_live_id(self.rows(), id),
    ;

    /// The exercises of all rows that are not deleted, in any order.
    fn list(&self) -> (r: RepositoryResult<Vec<Exercise>>)
        requires
            well_formed(self.rows()),
        ensures
            r matches Ok(v) ==> views(v@).to_multiset() == live_exercises(
                self.rows(),
            ).to_multiset(),
    ;

    /// Sets the soft-delete flag of the row stored under `id`.
    fn delete(&mut self, id: i64) -> (r: RepositoryResult<()>)
        requires
            well_formed(old(self).rows()),
        ensures
            well_formed(final(self).rows()),
            match r {
                Ok(_) => exists|i: int|
                    {
                        &&& 0 <= i < old(self).rows().len()
                        &&& #[trigger] old(self).rows()[i].id == id
                        &&& final(self).rows() == old(self).rows().update(
                            i,
                            old(self).rows()[i].soft_deleted(),
                        )
                    },
                Err(_) => final(self).rows() == old(self).rows(),
            },
            r matches Err(RepositoryError::ItemNotFoundError) ==> !has_live_id(old(self).rows(), id),
    ;
}

} // verus!
