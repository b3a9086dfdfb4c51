use vstd::prelude::*;

verus! {

/// The kind of equipment an exercise is performed with.
#[derive(Clone, Copy, Debug, PartialEq, Eq, Structural)]
pub enum ExerciseType {
    Barbell,
    KettleBell,
    BodyWeight,
}

/// Why a code or a name could not be turned into an [`ExerciseType`].
#[derive(Clone, Copy, Debug, PartialEq, Eq, Structural)]
pub enum ConversionError {
    /// The storage code is none of the known codes.
    UnsupportedCode,
    /// The name is none of the known aliases.
    UnsupportedName,
}

impl ExerciseType {
    /// The storage code of each type.
    pub open spec fn spec_code(self) -> i64 {
        match self {
            ExerciseType::Barbell => 0,
            ExerciseType::KettleBell => 1,
            ExerciseType::BodyWeight => 2,
        }
    }

    /// The storage code of this type.
    pub fn code(self) -> (r: i64)
        ensures
            r == self.spec_code(),
    {
        match self {
            ExerciseType::Barbell => 0,
            ExerciseType::KettleBell => 1,
            ExerciseType::BodyWeight => 2,
        }
    }

    /// The type stored under `code`; an unknown code is an error, not a fault.
    pub fn from_code(code: i64) -> (r: Result<ExerciseType, ConversionError>)
        ensures
            match r {
                Ok(t) => t.spec_code() == code,
                Err(e) => e == ConversionError::UnsupportedCode && !(0 <= code <= 2),
            },
    {
        match code {
            0 => Ok(ExerciseType::Barbell),
            1 => Ok(ExerciseType::KettleBell),
            2 => Ok(ExerciseType::BodyWeight),
            _ => Err(ConversionError::UnsupportedCode),
        }
    }
}


impl From<ExerciseType> for i64 {
    fn from(t: ExerciseType) -> (r: i64) {
        t.code()
    }
}

impl vstd::std_specs::convert::FromSpecImpl<ExerciseType> for i64 {
    open spec fn obeys_from_spec() -> bool {
        true
    }

    open spec fn from_spec(t: ExerciseType) -> i64 {
        t.spec_code()
    }
}

/// What `str::to_lowercase` returns for a string.
pub uninterp spec fn lowercase_of(s: Seq<char>) -> Seq<char>;

/// Relies on `str::to_lowercase`: the lowercase form of a string, which
/// depends on its characters alone.
#[verifier::external_body]
fn to_lowercase(s: &str) -> (r: String)
    ensures
        r@ == lowercase_of(s@),
{
    s.to_lowercase()
}

/// The type that a lowercase alias names, if any.
pub open spec fn alias_type(lower: Seq<char>) -> Option<ExerciseType> {
    if lower == "barbell"@ || lower == "bb"@ {
        Some(ExerciseType::Barbell)
    } else if lower == "kettlebell"@ || lower == "kb"@ {
        Some(ExerciseType::KettleBell)
    } else if lower == "bodyweight"@ || lower == "bw"@ {
        Some(ExerciseType::BodyWeight)
    } else {
        None
    }
}

/// Whether two strings hold the same characters.
fn same_chars(a: &str, b: &str) -> (r: bool)
    ensures
        r == (a@ == b@),
{
    let n = a.unicode_len();
    if n != b.unicode_len() {
        return false;
    }
    let mut i: usize = 0;
    while i < n
        invariant
            n == a@.len(),
            n == b@.len(),
            i <= n,
            a@.subrange(0, i as int) == b@.subrange(0, i as int),
        decreases n - i,
    {
        if a.get_char(i) != b.get_char(i) {
            assert(a@[i as int] != b@[i as int]);
            return false;
        }
        assert(a@.subrange(0, i + 1) == a@.subrange(0, i as int).push(a@[i as int]));
        assert(b@.subrange(0, i + 1) == b@.subrange(0, i as int).push(b@[i as int]));
        i = i + 1;
    }
    assert(a@ == a@.subrange(0, n as int));
    assert(b@ == b@.subrange(0, n as int));
    true
}

impl ExerciseType {
    /// The type named by an alias that is already in lowercase.
    pub fn from_lowercase_alias(lower: &str) -> (r: Result<ExerciseType, ConversionError>)
        ensures
            match alias_type(lower@) {
                Some(t) => r == Ok::<ExerciseType, ConversionError>(t),
                None => r == Err::<ExerciseType, ConversionError>(ConversionError::UnsupportedName),
            },
    {
        if same_chars(lower, "barbell") || same_chars(lower, "bb") {
            Ok(ExerciseType::Barbell)
        } else if same_chars(lower, "kettlebell") || same_chars(lower, "kb") {
            Ok(ExerciseType::KettleBell)
        } else if same_chars(lower, "bodyweight") || same_chars(lower, "bw") {
            Ok(ExerciseType::BodyWeight)
        } else {
            Err(ConversionError::UnsupportedName)
        }
    }

    /// The type named by `name`, compared without regard to case
    /// ("bb", "Barbell" and "BARBELL" all name a barbell exercise).
    pub fn from_name(name: &str) -> (r: Result<ExerciseType, ConversionError>)
        ensures
            match alias_type(lowercase_of(name@)) {
                Some(t) => r == Ok::<ExerciseType, ConversionError>(t),
                None => r == Err::<ExerciseType, ConversionError>(ConversionError::UnsupportedName),
            },
    {
        let lower = to_lowercase(name);
        ExerciseType::from_lowercase_alias(lower.as_str())
    }
}

/// An exercise as the application handles it.  `id` is absent until the
/// exercise has been stored, and is assigned by the repository.
#[derive(Clone, Debug, PartialEq)]
pub struct Exercise {
    pub id: Option<i64>,
    pub name: String,
    pub description: Option<String>,
    pub exercise_type: ExerciseType,
}

/// The mathematical value of an [`Exercise`].
pub struct ExerciseView {
    pub id: Option<i64>,
    pub name: Seq<char>,
    pub description: Option<Seq<char>>,
    pub exercise_type: ExerciseType,
}

pub open spec fn text_view(s: Option<String>) -> Option<Seq<char>> {
    match s {
        Some(t) => Some(t@),
        None => None,
    }
}

impl View for Exercise {
    type V = ExerciseView;

    open spec fn view(&self) -> ExerciseView {
        ExerciseView {
            id: self.id,
            name: self.name@,
            description: text_view(self.description),
            exercise_type: self.exercise_type,
        }
    }
}

/// A copy of an optional text.
pub fn copy_text(s: &Option<String>) -> (r: Option<String>)
    ensures
        text_view(r) == text_view(*s),
{
    match s {
        Some(t) => Some(t.clone()),
        None => None,
    }
}

impl Exercise {
    /// A copy of this exercise.
    pub fn copy(&self) -> (r: Exercise)
        ensures
            r@ == self@,
    {
        Exercise {
            id: self.id,
            name: self.name.clone(),
            description: copy_text(&self.description),
            exercise_type: self.exercise_type,
        }
    }
}

} // verus!
