use vstd::prelude::*;

use crate::error::{RepositoryError, RepositoryResult};
use crate::model::{text_view, ConversionError, Exercise, ExerciseType, ExerciseView};

verus! {

/// Where a SQLite database lives.
#[derive(Clone, Debug, PartialEq)]
pub enum DBType {
    InMemory,
    File(String),
}

impl DBType {
    pub open spec fn spec_url(self) -> Seq<char> {
        match self {
            DBType::InMemory => "sqlite::memory:"@,
            DBType::File(path) => "sqlite://"@ + path@,
        }
    }

    /// The connection URL of the database.
    pub fn connection_url(&self) -> (r: String)
        ensures
            r@ == self.spec_url(),
    {
        match self {
            DBType::InMemory => String::from_str("sqlite::memory:"),
            DBType::File(path) => {
                let mut url = String::from_str("sqlite://");
                url.append(path.as_str());
                url
            },
        }
    }
}

/// Where the service keeps its database.
#[derive(Clone, Debug, PartialEq)]
pub struct Settings {
    pub db_name: String,
    pub db_path: String,
}

/// How a statement against the database failed.
#[derive(Clone, Debug, PartialEq)]
pub enum StatementError {
    /// A query that asks for one row found none.
    RowNotFound,
    /// Any other failure, with the database's message.
    Other(String),
}

/// The columns of one row of the exercise table, as the database returns them.
#[derive(Clone, Debug, PartialEq)]
pub struct ExerciseRecord {
    pub id: i64,
    pub name: String,
    pub description: Option<String>,
    pub exercise_type: i64,
}

/// The exercise that a record holds, when its type code is known.
pub open spec fn record_exercise(rec: ExerciseRecord, t: ExerciseType) -> ExerciseView {
    ExerciseView {
        id: Some(rec.id),
        name: rec.name@,
        description: text_view(rec.description),
        exercise_type: t,
    }
}

/// What a query for one exercise yields: the row's exercise; not found when
/// there is no row; a query error for any other failure, and for a row whose
/// type code is unknown.
pub open spec fn query_outcome(q: Result<ExerciseRecord, StatementError>, r: RepositoryResult<Exercise>) -> bool {
    match q {
        Ok(rec) => if 0 <= rec.exercise_type <= 2 {
            r matches Ok(e) && e@.exercise_type.spec_code() == rec.exercise_type && e@
                == record_exercise(rec, e@.exercise_type)
        } else {
            r matches Err(RepositoryError::QueryError(_))
        },
        Err(StatementError::RowNotFound) => r matches Err(RepositoryError::ItemNotFoundError),
        Err(StatementError::Other(m)) => r matches Err(RepositoryError::QueryError(d)) && d@ == m@,
    }
}

/// Turns a record into an exercise.
pub fn record_to_exercise(rec: ExerciseRecord) -> (r: Result<Exercise, ConversionError>)
    ensures
        match r {
            Ok(e) => 0 <= rec.exercise_type <= 2 && e@.exercise_type.spec_code() == rec.exercise_type
                && e@ == record_exercise(rec, e@.exercise_type),
            Err(_) => !(0 <= rec.exercise_type <= 2),
        },
{
    match ExerciseType::from_code(rec.exercise_type) {
        Ok(t) => Ok(Exercise { id: Some(rec.id), name: rec.name, description: rec.description, exercise_type: t }),
        Err(e) => Err(e),
    }
}

/// The outcome of a query for one exercise.
pub fn process_query(q: Result<ExerciseRecord, StatementError>) -> (r: RepositoryResult<Exercise>)
    ensures
        query_outcome(q, r),
{
    match q {
        Ok(rec) => match record_to_exercise(rec) {
            Ok(e) => Ok(e),
            Err(_) => Err(RepositoryError::QueryError(String::from_str("unsupported exercise type code"))),
        },
        Err(StatementError::RowNotFound) => Err(RepositoryError::ItemNotFoundError),
        Err(StatementError::Other(m)) => Err(RepositoryError::QueryError(m)),
    }
}

/// The outcome of a query for all exercises: each record becomes an
/// exercise, in order; a failed query, or a record with an unknown type
/// code, is a query error.
pub fn process_list(q: Result<Vec<ExerciseRecord>, String>) -> (r: RepositoryResult<Vec<Exercise>>)
    ensures
        match q {
            Ok(recs) => match r {
                Ok(v) => v@.len() == recs@.len() && forall|i: int|
                    0 <= i < v@.len() ==> (#[trigger] v@[i])@ == record_exercise(recs@[i], v@[i]@.exercise_type)
                        && v@[i]@.exercise_type.spec_code() == recs@[i].exercise_type,
                Err(e) => e is QueryError && exists|i: int|
                    0 <= i < recs@.len() && !(0 <= #[trigger] recs@[i].exercise_type <= 2),
            },
            Err(m) => r matches Err(RepositoryError::QueryError(d)) && d@ == m@,
        },
{
    match q {
        Ok(recs) => {
            let mut out: Vec<Exercise> = Vec::new();
            let ghost all = recs@;
            let n = recs.len();
            let mut i: usize = 0;
            while i < n
                invariant
                    n == all.len(),
                    recs@ == all,
                    q is Ok && q->Ok_0@ == all,
                    i <= n,
                    out@.len() == i,
                    forall|k: int|
                        0 <= k < i ==> (#[trigger] out@[k])@ == record_exercise(all[k], out@[k]@.exercise_type)
                            && out@[k]@.exercise_type.spec_code() == all[k].exercise_type,
                decreases n - i,
            {
                let rec = ExerciseRecord {
                    id: recs[i].id,
                    name: recs[i].name.clone(),
                    description: crate::model::copy_text(&recs[i].description),
                    exercise_type: recs[i].exercise_type,
                };
                match record_to_exercise(rec) {
                    Ok(e) => out.push(e),
                    Err(_) => {
                        assert(!(0 <= recs@[i as int].exercise_type <= 2));
                        assert(exists|j: int|
                            0 <= j < recs@.len() && !(0 <= #[trigger] recs@[j].exercise_type <= 2));
                        return Err(RepositoryError::QueryError(String::from_str("unsupported exercise type code")));
                    },
                }
                i = i + 1;
            }
            Ok(out)
        },
        Err(m) => Err(RepositoryError::QueryError(m)),
    }
}

/// An insert that failed is a persistence error; one that succeeded yields
/// the new row's identifier.
pub fn process_create(q: Result<i64, String>) -> (r: RepositoryResult<i64>)
    ensures
        match q {
            Ok(id) => r == Ok::<i64, RepositoryError>(id),
            Err(m) => r matches Err(RepositoryError::PersistenceError(d)) && d@ == m@,
        },
{
    match q {
        Ok(id) => Ok(id),
        Err(m) => Err(RepositoryError::PersistenceError(m)),
    }
}

/// An update is committed when it touched exactly one row, and rolled back
/// otherwise.
pub fn should_commit(rows_affected: u64) -> (r: bool)
    ensures
        r == (rows_affected == 1),
{
    rows_affected == 1
}

/// The outcome of an update: `statement` is what the update statement
/// returned (the number of rows it touched), `finish` what the commit or
/// rollback that followed returned.  Touching no single row means the
/// exercise was not found.
pub fn process_update(statement: Result<u64, String>, finish: Result<(), String>) -> (r: RepositoryResult<()>)
    ensures
        match statement {
            Err(m) => r matches Err(RepositoryError::PersistenceError(d)) && d@ == m@,
            Ok(n) => match finish {
                Err(m) => r matches Err(RepositoryError::PersistenceError(d)) && d@ == m@,
                Ok(_) => if n == 1 {
                    r is Ok
                } else {
                    r matches Err(RepositoryError::ItemNotFoundError)
                },
            },
        },
{
    match statement {
        Err(m) => Err(RepositoryError::PersistenceError(m)),
        Ok(n) => match finish {
            Err(m) => Err(RepositoryError::PersistenceError(m)),
            Ok(_) => if should_commit(n) {
                Ok(())
            } else {
                Err(RepositoryError::ItemNotFoundError)
            },
        },
    }
}

/// The outcome of a soft delete, from the number of rows it flagged.  More
/// than one row under one identifier cannot happen, so it is excluded.
pub fn process_delete(statement: Result<u64, String>) -> (r: RepositoryResult<()>)
    requires
        statement matches Ok(n) ==> n <= 1,
    ensures
        match statement {
            Ok(n) => if n == 1 {
                r is Ok
            } else {
                r matches Err(RepositoryError::ItemNotFoundError)
            },
            Err(m) => r matches Err(RepositoryError::DeleteError(d)) && d@ == m@,
        },
{
    match statement {
        Ok(n) => if n == 1 {
            Ok(())
        } else {
            Err(RepositoryError::ItemNotFoundError)
        },
        Err(m) => Err(RepositoryError::DeleteError(m)),
    }
}

} // verus!
