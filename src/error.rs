use vstd::prelude::*;

verus! {

/// Outcomes of a repository, as the storage side reports them.
#[derive(Clone, Debug, PartialEq)]
pub enum RepositoryError {
    PersistenceError(String),
    ConnectionError(String),
    QueryError(String),
    DeleteError(String),
    ItemNotFoundError,
    DuplicateIdError,
    UnknownError(String),
}

pub type RepositoryResult<T> = Result<T, RepositoryError>;

/// Outcomes of the exercise manager, as its callers see them.
#[derive(Clone, Debug, PartialEq)]
pub enum ExerciseError {
    /// No stored exercise answers the request; the text says which request.
    ExerciseNotFoundError(String),
    /// A lookup could not be carried out.
    LookupError,
    /// Creating or updating an exercise failed in storage.
    SaveFailed,
    /// Deleting an exercise failed in storage.
    DeleteFailed,
    /// Listing exercises, or finding the one to delete, failed in storage.
    QueryError,
    /// Storage failed in a way that the operation does not expect.
    UnknownError,
}

pub type ExerciseResult<T> = Result<T, ExerciseError>;

/// Errors at the boundary of the whole service.
#[derive(Clone, Debug, PartialEq)]
pub enum TrainerError {
    ExerciseNotFound(String),
    LookupError(String),
    PersistenceError(String),
    ConnectionError(String),
    QueryError(String),
    DeleteError(String),
    ExerciseIdNotProvidedError(String),
    UnknownError(String),
}

pub type TrainerResult<T> = Result<T, TrainerError>;

/// `e` is the not-found outcome with context `context`.
pub open spec fn is_not_found_with(e: ExerciseError, context: Seq<char>) -> bool {
    e matches ExerciseError::ExerciseNotFoundError(s) && s@ == context
}

/// Failure of a create or an update: a persistence failure means the save
/// failed; anything else is unexpected.
pub open spec fn save_failure(re: RepositoryError) -> ExerciseError {
    match re {
        RepositoryError::PersistenceError(_) => ExerciseError::SaveFailed,
        _ => ExerciseError::UnknownError,
    }
}

/// The context of a save whose id matches no stored exercise.
pub open spec fn missing_id_context() -> Seq<char> {
    "exercise was not found with provided id"@
}

/// The context of a delete whose name matches no stored exercise.
pub open spec fn missing_name_context() -> Seq<char> {
    "exercise was not found"@
}

/// Failure of the existence check that precedes an update.
pub open spec fn existence_check_failure(re: RepositoryError, e: ExerciseError) -> bool {
    if re is ItemNotFoundError {
        is_not_found_with(e, missing_id_context())
    } else {
        e == ExerciseError::UnknownError
    }
}

/// Failure of a lookup (by name or by id) whose not-found context is `context`.
pub open spec fn lookup_failure(re: RepositoryError, context: Seq<char>, e: ExerciseError) -> bool {
    if re is ItemNotFoundError {
        is_not_found_with(e, context)
    } else {
        e == ExerciseError::LookupError
    }
}

/// Failure of the lookup by name that precedes a delete.
pub open spec fn delete_lookup_failure(re: RepositoryError, e: ExerciseError) -> bool {
    if re is ItemNotFoundError {
        is_not_found_with(e, missing_name_context())
    } else {
        e == ExerciseError::QueryError
    }
}

/// The decimal digits of `n`.
pub open spec fn decimal_digits(n: nat) -> Seq<char>
    decreases n,
{
    if n < 10 {
        seq!["0123456789"@[n as int]]
    } else {
        decimal_digits(n / 10).push("0123456789"@[(n % 10) as int])
    }
}

/// `i` written in decimal, with a leading minus sign when negative.
pub open spec fn decimal_text(i: int) -> Seq<char> {
    if i < 0 {
        "-"@ + decimal_digits((-i) as nat)
    } else {
        decimal_digits(i as nat)
    }
}

/// The context of a lookup by id that found nothing.
pub open spec fn id_context(id: i64) -> Seq<char> {
    "exercise with id "@ + decimal_text(id as int) + " was not found"@
}

fn push_decimal(n: u64, out: &mut String)
    ensures
        final(out)@ == old(out)@ + decimal_digits(n as nat),
    decreases n,
{
    if n >= 10 {
        push_decimal(n / 10, out);
    }
    let d = (n % 10) as usize;
    let digits = "0123456789";
    proof {
        reveal_strlit("0123456789");
    }
    let one = digits.substring_char(d, d + 1);
    assert(one@ =~= seq!["0123456789"@[d as int]]);
    out.append(one);
    proof {
        if n >= 10 {
            assert(final(out)@ =~= old(out)@ + decimal_digits(n as nat));
        } else {
            assert(final(out)@ =~= old(out)@ + decimal_digits(n as nat));
        }
    }
}

/// The not-found context of a lookup by id.
pub fn id_not_found_context(id: i64) -> (r: String)
    ensures
        r@ == id_context(id),
{
    let mut out = String::from_str("exercise with id ");
    if id < 0 {
        out.append("-");
        push_decimal((-(id as i128)) as u64, &mut out);
    } else {
        push_decimal(id as u64, &mut out);
    }
    out.append(" was not found");
    proof {
        assert(out@ =~= id_context(id));
    }
    out
}

/// The outcome of a failed create or update.
pub fn save_error(re: &RepositoryError) -> (r: ExerciseError)
    ensures
        r == save_failure(*re),
{
    match re {
        RepositoryError::PersistenceError(_) => ExerciseError::SaveFailed,
        _ => ExerciseError::UnknownError,
    }
}

/// The outcome of a failed existence check before an update.
pub fn existence_check_error(re: &RepositoryError) -> (r: ExerciseError)
    ensures
        existence_check_failure(*re, r),
{
    match re {
        RepositoryError::ItemNotFoundError => ExerciseError::ExerciseNotFoundError(
            String::from_str("exercise was not found with provided id"),
        ),
        _ => ExerciseError::UnknownError,
    }
}

/// The outcome of a failed lookup whose not-found context is `context`.
pub fn lookup_error(re: &RepositoryError, context: String) -> (r: ExerciseError)
    ensures
        lookup_failure(*re, context@, r),
{
    match re {
        RepositoryError::ItemNotFoundError => ExerciseError::ExerciseNotFoundError(context),
        _ => ExerciseError::LookupError,
    }
}

/// The outcome of a failed lookup by name before a delete.
pub fn delete_lookup_error(re: &RepositoryError) -> (r: ExerciseError)
    ensures
        delete_lookup_failure(*re, r),
{
    match re {
        RepositoryError::ItemNotFoundError => ExerciseError::ExerciseNotFoundError(
            String::from_str("exercise was not found"),
        ),
        _ => ExerciseError::QueryError,
    }
}

} // verus!
