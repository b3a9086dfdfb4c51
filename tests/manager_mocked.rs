use std::cell::RefCell;

use trainer::repository::Rows;
use trainer::{
    Exercise, ExerciseError, ExerciseManagement, ExerciseManager, ExerciseRepository,
    ExerciseType, RepositoryError, RepositoryResult,
};

/// A repository that answers each operation with a canned result and
/// records the calls it receives.
#[derive(Default)]
struct MockRepo {
    create: Option<RepositoryResult<i64>>,
    update: Option<RepositoryResult<()>>,
    by_name: Option<RepositoryResult<Exercise>>,
    by_id: Option<RepositoryResult<Exercise>>,
    list: Option<RepositoryResult<Vec<Exercise>>>,
    delete: Option<RepositoryResult<()>>,
    calls: RefCell<Vec<String>>,
}

impl MockRepo {
    fn calls(&self) -> Vec<String> {
        self.calls.borrow().clone()
    }
}

impl ExerciseRepository for MockRepo {
    // The model of stored rows exists for proofs only; a mock has none.
    fn rows(&self) -> Rows {
        panic!("a mock repository has no row model")
    }

    fn create(&mut self, exercise: &Exercise) -> RepositoryResult<i64> {
        self.calls.borrow_mut().push(format!("create {}", exercise.name));
        self.create.clone().expect("unexpected create")
    }

    fn update(&mut self, exercise: &Exercise) -> RepositoryResult<()> {
        self.calls.borrow_mut().push(format!("update {:?}", exercise.id));
        self.update.clone().expect("unexpected update")
    }

    fn query_by_name(&self, name: String) -> RepositoryResult<Exercise> {
        self.calls.borrow_mut().push(format!("query_by_name {}", name));
        self.by_name.clone().expect("unexpected query_by_name")
    }

    fn query_by_id(&self, id: i64) -> RepositoryResult<Exercise> {
        self.calls.borrow_mut().push(format!("query_by_id {}", id));
        self.by_id.clone().expect("unexpected query_by_id")
    }

    fn list(&self) -> RepositoryResult<Vec<Exercise>> {
        self.calls.borrow_mut().push("list".to_string());
        self.list.clone().expect("unexpected list")
    }

    fn delete(&mut self, id: i64) -> RepositoryResult<()> {
        self.calls.borrow_mut().push(format!("delete {}", id));
        self.delete.clone().expect("unexpected delete")
    }
}

fn deadlift(id: Option<i64>) -> Exercise {
    Exercise {
        id,
        name: "Deadlift".to_string(),
        description: Some("A lift made from a standing position, without the use of a bench or other equipment.".to_string()),
        exercise_type: ExerciseType::Barbell,
    }
}

fn benchpress(id: Option<i64>) -> Exercise {
    Exercise {
        id,
        name: "Benchpress".to_string(),
        description: Some("A lift or exercise in which a weight is raised by extending the arms upward while lying on a bench.".to_string()),
        exercise_type: ExerciseType::Barbell,
    }
}

fn manager(repo: MockRepo) -> ExerciseManager<MockRepo> {
    ExerciseManager::new(repo).unwrap()
}

fn db_error(kind: fn(String) -> RepositoryError) -> RepositoryError {
    kind("db error".to_string())
}

#[test]
fn api_test_new_ok() {
    let mgr = ExerciseManager::new(MockRepo::default());
    assert!(mgr.is_ok())
}

#[test]
fn exercise_test_new_ok() {
    let mgr = ExerciseManager::new(MockRepo::default());
    assert!(mgr.is_ok())
}

fn get_by_name_found() -> MockRepo {
    MockRepo {
        by_name: Some(Ok(Exercise {
            id: Some(1),
            name: "Deadlift".to_string(),
            description: None,
            exercise_type: ExerciseType::Barbell,
        })),
        ..Default::default()
    }
}

#[test]
fn api_test_get_by_name_ok() {
    let mgr = manager(get_by_name_found());
    let get_result = mgr.get_by_name("Deadlift".to_string());
    assert!(get_result.is_ok());
    assert_eq!(mgr.repository().calls(), vec!["query_by_name Deadlift".to_string()]);
}

#[test]
fn exercise_test_get_by_name_ok() {
    let mgr = manager(get_by_name_found());
    let get_result = mgr.get_by_name("Deadlift".to_string());
    assert!(get_result.is_ok())
}

#[test]
fn api_test_get_by_name_not_found() {
    let mgr = manager(MockRepo { by_name: Some(Err(RepositoryError::ItemNotFoundError)), ..Default::default() });
    let result = mgr.get_by_name("Deadlift".to_string());
    assert!(result.is_err());
    assert!(matches!(result.err().unwrap(), ExerciseError::ExerciseNotFoundError(_)));
}

#[test]
fn exercise_test_get_by_name_not_found() {
    let mgr = manager(MockRepo { by_name: Some(Err(RepositoryError::ItemNotFoundError)), ..Default::default() });
    let result = mgr.get_by_name("Deadlift".to_string());
    assert!(result.is_err());
    assert!(matches!(
        result.err().unwrap(),
        ExerciseError::ExerciseNotFoundError(s) if s == "Deadlift"
    ));
}

#[test]
fn api_test_get_by_name_repo_sys_error() {
    let repo = MockRepo {
        by_name: Some(Err(RepositoryError::ConnectionError("db_error".to_string()))),
        ..Default::default()
    };
    let result = manager(repo).get_by_name("Deadlift".to_string());
    assert!(result.is_err());
    assert!(matches!(result.err().unwrap(), ExerciseError::LookupError))
}

#[test]
fn exercise_test_get_by_name_repo_sys_error() {
    let repo = MockRepo {
        by_name: Some(Err(RepositoryError::ConnectionError("db_error".to_string()))),
        ..Default::default()
    };
    let result = manager(repo).get_by_name("Deadlift".to_string());
    assert!(result.is_err());
    assert!(matches!(result.err().unwrap(), ExerciseError::LookupError))
}

#[test]
fn api_test_get_by_name_unknown_repo_error() {
    let repo = MockRepo {
        by_name: Some(Err(RepositoryError::UnknownError("db_error".to_string()))),
        ..Default::default()
    };
    let result = manager(repo).get_by_name("Deadlift".to_string());
    assert!(result.is_err());
    assert!(matches!(result.err().unwrap(), ExerciseError::LookupError))
}

#[test]
fn exercise_test_get_by_name_unknown_repo_error() {
    let repo = MockRepo {
        by_name: Some(Err(RepositoryError::UnknownError("db_error".to_string()))),
        ..Default::default()
    };
    let result = manager(repo).get_by_name("Deadlift".to_string());
    assert!(result.is_err());
    assert!(matches!(result.err().unwrap(), ExerciseError::LookupError))
}

fn save_new(create: RepositoryResult<i64>) -> (ExerciseResult, Exercise) {
    let mut mgr = manager(MockRepo { create: Some(create), ..Default::default() });
    let mut exercise = deadlift(None);
    let result = mgr.save(&mut exercise);
    (result, exercise)
}

type ExerciseResult = Result<(), ExerciseError>;

#[test]
fn api_test_save_new_ok() {
    let (result, exercise) = save_new(Ok(1));
    assert!(result.is_ok());
    assert!(matches!(exercise.id, Some(id) if id == 1));
}

#[test]
fn exercise_test_save_new_ok() {
    let (result, exercise) = save_new(Ok(1));
    assert!(result.is_ok());
    assert!(matches!(exercise.id, Some(id) if id == 1));
}

#[test]
fn api_test_save_new_failed() {
    let (result, exercise) = save_new(Err(db_error(RepositoryError::PersistenceError)));
    assert!(result.is_err());
    assert!(matches!(result.err().unwrap(), ExerciseError::SaveFailed));
    assert_eq!(exercise.id, None);
}

#[test]
fn exercise_test_save_new_failed() {
    let (result, _) = save_new(Err(db_error(RepositoryError::PersistenceError)));
    assert!(result.is_err());
    assert!(matches!(result.err().unwrap(), ExerciseError::SaveFailed));
}

#[test]
fn api_test_save_new_failed_unknown() {
    let (result, _) = save_new(Err(db_error(RepositoryError::UnknownError)));
    assert!(result.is_err());
    assert!(matches!(result.err().unwrap(), ExerciseError::UnknownError));
}

#[test]
fn exercise_test_save_new_failed_unknown() {
    let (result, _) = save_new(Err(db_error(RepositoryError::UnknownError)));
    assert!(result.is_err());
    assert!(matches!(result.err().unwrap(), ExerciseError::UnknownError));
}

fn save_existing(by_id: RepositoryResult<Exercise>, update: Option<RepositoryResult<()>>) -> (ExerciseResult, Vec<String>) {
    let mut mgr = manager(MockRepo { by_id: Some(by_id), update, ..Default::default() });
    let mut dl = deadlift(Some(1000));
    let result = mgr.save(&mut dl);
    (result, mgr.repository().calls())
}

fn existing_calls() -> Vec<String> {
    vec!["query_by_id 1000".to_string(), "update Some(1000)".to_string()]
}

#[test]
fn api_test_save_existing_ok() {
    let (result, calls) = save_existing(Ok(deadlift(Some(1000))), Some(Ok(())));
    assert!(result.is_ok());
    assert_eq!(calls, existing_calls());
}

#[test]
fn exercise_test_save_existing_ok() {
    let (result, calls) = save_existing(Ok(deadlift(Some(1000))), Some(Ok(())));
    assert!(result.is_ok());
    assert_eq!(calls, existing_calls());
}

#[test]
fn api_test_save_existing_bad_id() {
    let (result, calls) = save_existing(Err(RepositoryError::ItemNotFoundError), None);
    assert!(result.is_err());
    assert!(matches!(result.err().unwrap(), ExerciseError::ExerciseNotFoundError(_)));
    assert_eq!(calls, vec!["query_by_id 1000".to_string()]);
}

#[test]
fn exercise_test_save_existing_bad_id() {
    let (result, _) = save_existing(Err(RepositoryError::ItemNotFoundError), None);
    assert!(result.is_err());
    assert!(matches!(
        result.err().unwrap(),
        ExerciseError::ExerciseNotFoundError(s) if s == "exercise was not found with provided id"
    ));
}

#[test]
fn api_test_save_existing_unknown_err() {
    let (result, calls) = save_existing(Err(db_error(RepositoryError::UnknownError)), None);
    assert!(result.is_err());
    assert!(matches!(result.err().unwrap(), ExerciseError::UnknownError));
    assert_eq!(calls, vec!["query_by_id 1000".to_string()]);
}

#[test]
fn exercise_test_save_existing_unknown_err() {
    let (result, _) = save_existing(Err(db_error(RepositoryError::UnknownError)), None);
    assert!(result.is_err());
    assert!(matches!(result.err().unwrap(), ExerciseError::UnknownError));
}

#[test]
fn api_test_save_existing_failed_update() {
    let (result, calls) = save_existing(
        Ok(deadlift(Some(1000))),
        Some(Err(db_error(RepositoryError::PersistenceError))),
    );
    assert!(result.is_err());
    assert!(matches!(result.err().unwrap(), ExerciseError::SaveFailed));
    assert_eq!(calls, existing_calls());
}

#[test]
fn exercise_test_save_existing_failed_update() {
    let (result, _) = save_existing(
        Ok(deadlift(Some(1000))),
        Some(Err(db_error(RepositoryError::PersistenceError))),
    );
    assert!(result.is_err());
    assert!(matches!(result.err().unwrap(), ExerciseError::SaveFailed));
}

#[test]
fn api_test_save_existing_unknown_update_failure() {
    let (result, calls) = save_existing(
        Ok(deadlift(Some(1000))),
        Some(Err(db_error(RepositoryError::UnknownError))),
    );
    assert!(result.is_err());
    assert!(matches!(result.err().unwrap(), ExerciseError::UnknownError));
    assert_eq!(calls, existing_calls());
}

#[test]
fn exercise_test_save_existing_unknown_update_failure() {
    let (result, _) = save_existing(
        Ok(deadlift(Some(1000))),
        Some(Err(db_error(RepositoryError::UnknownError))),
    );
    assert!(result.is_err());
    assert!(matches!(result.err().unwrap(), ExerciseError::UnknownError));
}

fn list_two() -> MockRepo {
    MockRepo {
        list: Some(Ok(vec![deadlift(Some(1000)), benchpress(Some(2000))])),
        ..Default::default()
    }
}

#[test]
fn api_list_ok() {
    let result = manager(list_two()).list();
    assert!(result.is_ok());
    let exercises = result.unwrap();
    assert_eq!(2, exercises.len());
    assert!(exercises.contains(&deadlift(Some(1000))));
    assert!(exercises.contains(&benchpress(Some(2000))));
}

#[test]
fn exercise_list_ok() {
    let result = manager(list_two()).list();
    assert!(result.is_ok());
    let exercises = result.unwrap();
    assert_eq!(2, exercises.len());
    assert!(exercises.contains(&deadlift(Some(1000))));
    assert!(exercises.contains(&benchpress(Some(2000))));
}

#[test]
fn api_list_failed() {
    let repo = MockRepo { list: Some(Err(db_error(RepositoryError::UnknownError))), ..Default::default() };
    let result = manager(repo).list();
    assert!(result.is_err());
    assert!(matches!(result.err().unwrap(), ExerciseError::QueryError))
}

#[test]
fn exercise_list_failed() {
    let repo = MockRepo { list: Some(Err(db_error(RepositoryError::UnknownError))), ..Default::default() };
    let result = manager(repo).list();
    assert!(result.is_err());
    assert!(matches!(result.err().unwrap(), ExerciseError::QueryError))
}

fn delete_deadlift(by_name: RepositoryResult<Exercise>, delete: Option<RepositoryResult<()>>) -> (ExerciseResult, Vec<String>) {
    let mut mgr = manager(MockRepo { by_name: Some(by_name), delete, ..Default::default() });
    let dl = deadlift(Some(1000));
    let result = mgr.delete(dl.name);
    (result, mgr.repository().calls())
}

fn delete_calls() -> Vec<String> {
    vec!["query_by_name Deadlift".to_string(), "delete 1000".to_string()]
}

#[test]
fn api_delete_ok() {
    let (result, calls) = delete_deadlift(Ok(deadlift(Some(1000))), Some(Ok(())));
    assert!(result.is_ok());
    assert_eq!(calls, delete_calls());
}

#[test]
fn exercise_delete_ok() {
    let (result, calls) = delete_deadlift(Ok(deadlift(Some(1000))), Some(Ok(())));
    assert!(result.is_ok());
    assert_eq!(calls, delete_calls());
}

#[test]
fn api_delete_failed() {
    let (result, calls) = delete_deadlift(
        Ok(deadlift(Some(1000))),
        Some(Err(db_error(RepositoryError::DeleteError))),
    );
    assert!(result.is_err());
    assert!(matches!(result.err().unwrap(), ExerciseError::DeleteFailed));
    assert_eq!(calls, delete_calls());
}

#[test]
fn exercise_delete_failed() {
    let (result, _) = delete_deadlift(
        Ok(deadlift(Some(1000))),
        Some(Err(db_error(RepositoryError::DeleteError))),
    );
    assert!(result.is_err());
    assert!(matches!(result.err().unwrap(), ExerciseError::DeleteFailed));
}

#[test]
fn api_delete_failed_item_not_found() {
    let (result, calls) = delete_deadlift(
        Err(RepositoryError::ItemNotFoundError),
        Some(Err(db_error(RepositoryError::DeleteError))),
    );
    assert!(result.is_err());
    assert!(matches!(result.err().unwrap(), ExerciseError::ExerciseNotFoundError(_)));
    assert_eq!(calls, vec!["query_by_name Deadlift".to_string()]);
}

#[test]
fn exercise_delete_failed_item_not_found() {
    let (result, calls) = delete_deadlift(
        Err(RepositoryError::ItemNotFoundError),
        Some(Err(db_error(RepositoryError::DeleteError))),
    );
    assert!(result.is_err());
    assert!(matches!(
        result.err().unwrap(),
        ExerciseError::ExerciseNotFoundError(s) if s == "exercise was not found"
    ));
    assert_eq!(calls, vec!["query_by_name Deadlift".to_string()]);
}

#[test]
fn api_delete_failed_query_failure() {
    let (result, calls) = delete_deadlift(Err(db_error(RepositoryError::UnknownError)), None);
    assert!(result.is_err());
    assert!(matches!(result.err().unwrap(), ExerciseError::QueryError));
    assert_eq!(calls, vec!["query_by_name Deadlift".to_string()]);
}

#[test]
fn exercise_delete_failed_query_failure() {
    let (result, _) = delete_deadlift(Err(db_error(RepositoryError::UnknownError)), None);
    assert!(result.is_err());
    assert!(matches!(result.err().unwrap(), ExerciseError::QueryError))
}

#[test]
fn get_by_id_not_found_names_the_id() {
    let repo = MockRepo { by_id: Some(Err(RepositoryError::ItemNotFoundError)), ..Default::default() };
    let result = manager(repo).get_by_id(1000);
    assert!(matches!(
        result.err().unwrap(),
        ExerciseError::ExerciseNotFoundError(s) if s == "exercise with id 1000 was not found"
    ));
}

#[test]
fn get_by_id_not_found_names_a_negative_id() {
    let repo = MockRepo { by_id: Some(Err(RepositoryError::ItemNotFoundError)), ..Default::default() };
    let result = manager(repo).get_by_id(i64::MIN);
    assert!(matches!(
        result.err().unwrap(),
        ExerciseError::ExerciseNotFoundError(s) if s == "exercise with id -9223372036854775808 was not found"
    ));
}

#[test]
fn get_by_id_failure_is_a_lookup_error() {
    let repo = MockRepo { by_id: Some(Err(db_error(RepositoryError::QueryError))), ..Default::default() };
    let result = manager(repo).get_by_id(7);
    assert!(matches!(result.err().unwrap(), ExerciseError::LookupError));
}

#[test]
fn delete_of_queried_exercise_without_id_is_not_silent() {
    let (result, calls) = delete_deadlift(Ok(deadlift(None)), None);
    assert!(matches!(result.err().unwrap(), ExerciseError::UnknownError));
    assert_eq!(calls, vec!["query_by_name Deadlift".to_string()]);
}
