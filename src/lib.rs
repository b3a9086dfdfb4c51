//! Exercise management for a fitness tracker: the exercise model, a storage
//! contract for repositories, a verified in-memory repository, and a manager
//! that turns repository outcomes into domain outcomes.
pub mod error;
pub mod laws;
pub mod manager;
pub mod memory;
pub mod model;
pub mod repository;
pub mod storage;

pub use error::{
    ExerciseError, ExerciseResult, RepositoryError, RepositoryResult, TrainerError, TrainerResult,
};
pub use manager::{ExerciseManagement, ExerciseManager};
pub use memory::InMemoryExerciseRepository;
pub use model::{ConversionError, Exercise, ExerciseType};
pub use repository::ExerciseRepository;
pub use storage::{DBType, ExerciseRecord, Settings, StatementError};
