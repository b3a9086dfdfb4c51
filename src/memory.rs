use vstd::prelude::*;

use crate::error::{RepositoryError, RepositoryResult};
use crate::model::{copy_text, text_view, Exercise, ExerciseType};
use crate::repository::{
    folded, has_id, has_live_id, has_live_name, live_exercises, name_taken_by_other, names_match,
    views, well_formed, ExerciseRepository, Row,
};

verus! {

/// The largest identifier among `rows`, or 0 when there is none.
pub open spec fn max_id(rows: Seq<Row>) -> i64
    decreases rows.len(),
{
    if rows.len() == 0 {
        0
    } else if rows.last().id > max_id(rows.drop_last()) {
        rows.last().id
    } else {
        max_id(rows.drop_last())
    }
}

proof fn lemma_max_id_bounds(rows: Seq<Row>)
    ensures
        max_id(rows) >= 0,
        forall|i: int| 0 <= i < rows.len() ==> rows[i].id <= max_id(rows),
    decreases rows.len(),
{
    if rows.len() > 0 {
        lemma_max_id_bounds(rows.drop_last());
        assert forall|i: int| 0 <= i < rows.len() implies rows[i].id <= max_id(rows) by {
            if i < rows.len() - 1 {
                assert(rows[i] == rows.drop_last()[i]);
            }
        }
    }
}

/// Names that match one name match each other.
pub proof fn lemma_names_match_shared(a: Seq<char>, b: Seq<char>, n: Seq<char>)
    requires
        names_match(a, n),
        names_match(b, n),
    ensures
        names_match(a, b),
        names_match(b, a),
{
    assert forall|i: int| 0 <= i < a.len() implies folded(a[i]) == folded(b[i]) by {
        assert(folded(a[i]) == folded(n[i]));
        assert(folded(b[i]) == folded(n[i]));
    }
    assert forall|i: int| 0 <= i < b.len() implies folded(b[i]) == folded(a[i]) by {
        assert(folded(a[i]) == folded(n[i]));
        assert(folded(b[i]) == folded(n[i]));
    }
}

/// The folded value of one character.
fn fold_char(c: char) -> (r: u32)
    ensures
        r == folded(c),
{
    let v = c as u32;
    if 65 <= v && v <= 90 {
        v + 32
    } else {
        v
    }
}

/// Whether two names match without regard to the case of ASCII letters.
pub fn same_name(a: &str, b: &str) -> (r: bool)
    ensures
        r == names_match(a@, b@),
{
    let n = a.unicode_len();
    if n != b.unicode_len() {
        return false;
    }
    let mut i: usize = 0;
    while i < n
        invariant
            n == a@.len(),
            n == b@.len(),
            i <= n,
            forall|k: int| 0 <= k < i ==> #[trigger] folded(a@[k]) == folded(b@[k]),
        decreases n - i,
    {
        if fold_char(a.get_char(i)) != fold_char(b.get_char(i)) {
            return false;
        }
        i = i + 1;
    }
    true
}

/// A stored exercise with its identifier and its soft-delete flag.
struct StoredExercise {
    id: i64,
    name: String,
    description: Option<String>,
    exercise_type: ExerciseType,
    deleted: bool,
}

impl View for StoredExercise {
    type V = Row;

    closed spec fn view(&self) -> Row {
        Row {
            id: self.id,
            name: self.name@,
            description: text_view(self.description),
            exercise_type: self.exercise_type,
            deleted: self.deleted,
        }
    }
}

impl StoredExercise {
    fn to_exercise(&self) -> (r: Exercise)
        ensures
            r@ == self@.exercise(),
    {
        Exercise {
            id: Some(self.id),
            name: self.name.clone(),
            description: copy_text(&self.description),
            exercise_type: self.exercise_type,
        }
    }
}

/// A repository that keeps its rows in memory.  Identifiers start at 1 and
/// each new one is one more than the largest so far; deleting only flags a
/// row.
pub struct InMemoryExerciseRepository {
    rows: Vec<StoredExercise>,
}

impl InMemoryExerciseRepository {
    /// An empty repository.
    pub fn new() -> (r: Self)
        ensures
            r.rows() == Seq::<Row>::empty(),
    {
        let r = InMemoryExerciseRepository { rows: Vec::new() };
        assert(r.rows() =~= Seq::<Row>::empty());
        r
    }

    /// The index of the row that is not deleted and whose name matches `name`.
    fn find_live_name(&self, name: &str) -> (r: Option<usize>)
        ensures
            match r {
                Some(i) => {
                    &&& i < self.rows().len()
                    &&& self.rows()[i as int].live()
                    &&& names_match(self.rows()[i as int].name, name@)
                },
                None => !has_live_name(self.rows(), name@),
            },
    {
        let mut i: usize = 0;
        while i < self.rows.len()
            invariant
                i <= self.rows.len(),
                self.rows().len() == self.rows@.len(),
                forall|k: int|
                    0 <= k < i ==> !(self.rows()[k].live() && names_match(
                        #[trigger] self.rows()[k].name,
                        name@,
                    )),
            decreases self.rows.len() - i,
        {
            if !self.rows[i].deleted && same_name(self.rows[i].name.as_str(), name) {
                return Some(i);
            }
            i = i + 1;
        }
        None
    }

    /// The index of the row stored under `id`, deleted or not.
    fn find_id(&self, id: i64) -> (r: Option<usize>)
        ensures
            match r {
                Some(i) => i < self.rows().len() && self.rows()[i as int].id == id,
                None => !has_id(self.rows(), id),
            },
    {
        let mut i: usize = 0;
        while i < self.rows.len()
            invariant
                i <= self.rows.len(),
                self.rows().len() == self.rows@.len(),
                forall|k: int| 0 <= k < i ==> #[trigger] self.rows()[k].id != id,
            decreases self.rows.len() - i,
        {
            if self.rows[i].id == id {
                return Some(i);
            }
            i = i + 1;
        }
        None
    }

    /// The index of the row that is not deleted under `id`.
    fn find_live_id(&self, id: i64) -> (r: Option<usize>)
        requires
            well_formed(self.rows()),
        ensures
            match r {
                Some(i) => i < self.rows().len() && self.rows()[i as int].id == id
                    && self.rows()[i as int].live(),
                None => !has_live_id(self.rows(), id),
            },
    {
        match self.find_id(id) {
            Some(i) => {
                if self.rows[i].deleted {
                    None
                } else {
                    Some(i)
                }
            },
            None => None,
        }
    }

    /// The largest identifier stored so far, or 0.
    fn largest_id(&self) -> (r: i64)
        ensures
            r == max_id(self.rows()),
    {
        let mut m: i64 = 0;
        let mut i: usize = 0;
        while i < self.rows.len()
            invariant
                i <= self.rows.len(),
                self.rows().len() == self.rows@.len(),
                m == max_id(self.rows().subrange(0, i as int)),
            decreases self.rows.len() - i,
        {
            assert(self.rows().subrange(0, i + 1).drop_last() =~= self.rows().subrange(0, i as int));
            if self.rows[i].id > m {
                m = self.rows[i].id;
            }
            i = i + 1;
        }
        assert(self.rows().subrange(0, self.rows@.len() as int) =~= self.rows());
        m
    }

    /// Inspects storage directly: whether the row under `id` is flagged
    /// deleted, or `None` when no row was ever stored under `id`.
    pub fn is_deleted(&self, id: i64) -> (r: Option<bool>)
        ensures
            match r {
                Some(d) => exists|i: int|
                    0 <= i < self.rows().len() && #[trigger] self.rows()[i].id == id
                        && self.rows()[i].deleted == d,
                None => !has_id(self.rows(), id),
            },
    {
        match self.find_id(id) {
            Some(i) => Some(self.rows[i].deleted),
            None => None,
        }
    }
}

impl ExerciseRepository for InMemoryExerciseRepository {
    closed spec fn rows(&self) -> Seq<Row> {
        self.rows@.map_values(|s: StoredExercise| s@)
    }

    fn create(&mut self, exercise: &Exercise) -> (r: RepositoryResult<i64>)
        ensures
            r is Ok <==> !has_live_name(old(self).rows(), exercise@.name) && max_id(old(self).rows())
                < i64::MAX,
            r matches Ok(id) ==> id == max_id(old(self).rows()) + 1,
    {
        if self.find_live_name(exercise.name.as_str()).is_some() {
            return Err(RepositoryError::PersistenceError(String::from_str("UNIQUE constraint failed: EXERCISE.name")));
        }
        let largest = self.largest_id();
        if largest == i64::MAX {
            return Err(RepositoryError::PersistenceError(String::from_str("identifiers exhausted")));
        }
        let id = largest + 1;
        proof {
            lemma_max_id_bounds(old(self).rows());
        }
        let row = StoredExercise {
            id,
            name: exercise.name.clone(),
            description: copy_text(&exercise.description),
            exercise_type: exercise.exercise_type,
            deleted: false,
        };
        self.rows.push(row);
        assert(self.rows() =~= old(self).rows().push(Row::live_row(id, exercise@)));
        Ok(id)
    }

    fn update(&mut self, exercise: &Exercise) -> (r: RepositoryResult<()>)
        ensures
            r is Ok <==> (exercise@.id matches Some(id) && has_live_id(old(self).rows(), id)
                && !name_taken_by_other(old(self).rows(), exercise@.name, id)),
            r matches Err(e) ==> (e is ItemNotFoundError <==> !(exercise@.id matches Some(id)
                && has_live_id(old(self).rows(), id))),
    {
        let id = match exercise.id {
            Some(id) => id,
            None => return Err(RepositoryError::ItemNotFoundError),
        };
        let k = match self.find_live_id(id) {
            Some(k) => k,
            None => return Err(RepositoryError::ItemNotFoundError),
        };
        let rows0 = Ghost(self.rows());
        match self.find_live_name(exercise.name.as_str()) {
            Some(j) => {
                if j != k {
                    assert(rows0@[j as int].id != id);
                    return Err(RepositoryError::PersistenceError(String::from_str("UNIQUE constraint failed: EXERCISE.name")));
                }
                proof {
                    assert forall|i: int|
                        0 <= i < rows0@.len() && rows0@[i].live() && rows0@[i].id != id
                            implies !names_match(#[trigger] rows0@[i].name, exercise@.name) by {
                        if names_match(rows0@[i].name, exercise@.name) {
                            lemma_names_match_shared(rows0@[i].name, rows0@[k as int].name, exercise@.name);
                        }
                    }
                }
            },
            None => {},
        }
        let row = StoredExercise {
            id,
            name: exercise.name.clone(),
            description: copy_text(&exercise.description),
            exercise_type: exercise.exercise_type,
            deleted: false,
        };
        self.rows.set(k, row);
        assert(self.rows() =~= rows0@.update(k as int, Row::live_row(id, exercise@)));
        proof {
            let rows1 = self.rows();
            assert forall|i: int, j: int|
                0 <= i < j < rows1.len() && rows1[i].live() && rows1[j].live() implies !names_match(
                    rows1[i].name,
                    rows1[j].name,
                ) by {
                if i == k {
                    assert(rows0@[j].id != id);
                } else if j == k {
                    assert(rows0@[i].id != id);
                    if names_match(rows1[i].name, rows1[j].name) {
                        lemma_names_match_shared(exercise@.name, exercise@.name, rows1[i].name);
                        lemma_names_match_shared(rows1[i].name, rows1[i].name, exercise@.name);
                    }
                }
            }
        }
        Ok(())
    }

    fn query_by_name(&self, name: String) -> (r: RepositoryResult<Exercise>)
        ensures
            r is Ok <==> has_live_name(self.rows(), name@),
            r matches Err(e) ==> e is ItemNotFoundError,
    {
        match self.find_live_name(name.as_str()) {
            Some(i) => Ok(self.rows[i].to_exercise()),
            None => Err(RepositoryError::ItemNotFoundError),
        }
    }

    fn query_by_id(&self, id: i64) -> (r: RepositoryResult<Exercise>)
        ensures
            r is Ok <==> has_live_id(self.rows(), id),
            r matches Err(e) ==> e is ItemNotFoundError,
    {
        match self.find_live_id(id) {
            Some(i) => Ok(self.rows[i].to_exercise()),
            None => Err(RepositoryError::ItemNotFoundError),
        }
    }

    fn list(&self) -> (r: RepositoryResult<Vec<Exercise>>)
        ensures
            r matches Ok(v) && views(v@) == live_exercises(self.rows()),
    {
        let mut out: Vec<Exercise> = Vec::new();
        let mut i: usize = 0;
        while i < self.rows.len()
            invariant
                i <= self.rows.len(),
                self.rows().len() == self.rows@.len(),
                views(out@) == live_exercises(self.rows().subrange(0, i as int)),
            decreases self.rows.len() - i,
        {
            assert(self.rows().subrange(0, i + 1).drop_last() =~= self.rows().subrange(0, i as int));
            if !self.rows[i].deleted {
                let e = self.rows[i].to_exercise();
                let before = Ghost(out@);
                out.push(e);
                assert(views(out@) =~= views(before@).push(e@));
            }
            i = i + 1;
        }
        assert(self.rows().subrange(0, self.rows@.len() as int) =~= self.rows());
        Ok(out)
    }

    fn delete(&mut self, id: i64) -> (r: RepositoryResult<()>)
        ensures
            r is Ok <==> has_live_id(old(self).rows(), id),
            r matches Err(e) ==> e is ItemNotFoundError,
    {
        let k = match self.find_live_id(id) {
            Some(k) => k,
            None => return Err(RepositoryError::ItemNotFoundError),
        };
        let rows0 = Ghost(self.rows());
        self.rows[k].deleted = true;
        assert(self.rows() =~= rows0@.update(k as int, rows0@[k as int].soft_deleted()));
        Ok(())
    }
}

} // verus!
