use task_service::errors::{payload_error, ClientError, ErrorCodes, PayloadFailure};
use task_service::handlers::{
    create_task, delete_task, read_all_tasks, read_task_by_id, update_task,
};
use task_service::model::{NewTask, Task};
use task_service::path::parse_id;
use task_service::response::{Body, Response, CREATED, NO_CONTENT, OK};
use task_service::store::{SqlValue, StoreFailure};

/// The row that a store holds once it has given `id` to `input`.
fn persisted(id: i32, input: &NewTask) -> Task {
    Task::new(
        id,
        input.name().to_string(),
        input.description().to_string(),
        input.due_date(),
        input.is_complete(),
    )
}

fn one_task(answer: Result<Response, ClientError>, status: u16) -> Task {
    let response = answer.expect("a response");
    assert_eq!(response.status(), status);
    match response.into_body() {
        Body::Task(task) => task,
        other => panic!("expected one task, got {:?}", other),
    }
}

fn all_tasks(answer: Result<Response, ClientError>) -> Vec<Task> {
    let response = answer.expect("a response");
    assert_eq!(response.status(), 200);
    match response.into_body() {
        Body::Tasks(tasks) => tasks,
        other => panic!("expected a list of tasks, got {:?}", other),
    }
}

fn failed(answer: Result<Response, ClientError>, code: ErrorCodes, status: u16, msg: &str) {
    let error = answer.expect_err("an error");
    assert_eq!(error.code(), code);
    assert_eq!(error.status_code(), status);
    assert_eq!(error.msg(), msg);
}

#[test]
fn database_tests() {
    let tasks_to_test = Task::create_test_data();
    let expected = Task::create_result_data();

    let mut stored: Vec<Task> = Vec::new();
    for (test_task, expected_task) in tasks_to_test.iter().zip(expected.iter()) {
        let id = stored.len() as i32 + 1;
        let statement = Task::create(test_task);
        assert_eq!(statement.params().len(), 4);
        let result = one_task(create_task(Ok(persisted(id, test_task))), 201);

        assert_eq!(result, *expected_task);
        stored.push(result);
    }

    let result = all_tasks(read_all_tasks(Ok(stored)));
    assert_eq!(result, expected);
}

#[test]
fn status_constants_of_success() {
    assert_eq!(OK, 200);
    assert_eq!(CREATED, 201);
    assert_eq!(NO_CONTENT, 204);
}

#[test]
fn response_keeps_status_and_body() {
    let response = Response::new(200, Body::Empty);
    assert_eq!(response.status(), 200);
    assert!(matches!(response.body(), Body::Empty));
    let task = Task::new(1, "n".to_string(), "d".to_string(), None, false);
    let response = Response::new(201, Body::Task(task));
    assert_eq!(response.status(), 201);
    match response.body() {
        Body::Task(task) => assert_eq!(task.id(), 1),
        other => panic!("expected one task, got {:?}", other),
    }
}

#[test]
fn created_task_is_echoed_with_its_id() {
    let input = NewTask::new("Test Task 1".to_string(), "d".to_string(), None, Some(false));
    let statement = Task::create(&input);
    assert_eq!(
        statement.params(),
        &vec![
            SqlValue::Text("Test Task 1".to_string()),
            SqlValue::Text("d".to_string()),
            SqlValue::BigInt(None),
            SqlValue::Boolean(false),
        ]
    );
    let task = one_task(create_task(Ok(persisted(1, &input))), 201);
    assert_eq!(task.id(), 1);
    assert_eq!(task.name(), "Test Task 1");
    assert_eq!(task.description(), "d");
    assert_eq!(task.due_date(), None);
    assert!(!task.is_complete());
}

#[test]
fn create_answers_a_refused_input_with_invalid_input() {
    failed(
        create_task(Err(StoreFailure::ConstraintViolation)),
        ErrorCodes::InvalidInput,
        400,
        "Database said invalid input.",
    );
}

#[test]
fn create_answers_other_failures_with_internal_server_error() {
    for failure in [StoreFailure::Other, StoreFailure::NotFound] {
        failed(
            create_task(Err(failure)),
            ErrorCodes::InternalServerError,
            500,
            "Something went wrong with the database.",
        );
    }
}

#[test]
fn created_task_reads_back_the_same() {
    let input = NewTask::new("write".to_string(), "a page".to_string(), Some(5), None);
    let created = one_task(create_task(Ok(persisted(17, &input))), 201);
    let statement = Task::read_by_id(created.id());
    assert_eq!(statement.params(), &vec![SqlValue::Integer(17)]);
    let read = one_task(read_task_by_id(Ok(persisted(17, &input))), 200);
    assert_eq!(read, created);
}

#[test]
fn listing_of_an_empty_store_is_empty() {
    let tasks = all_tasks(read_all_tasks(Ok(Vec::new())));
    assert!(tasks.is_empty());
}

#[test]
fn listing_shows_every_row_in_the_order_of_the_reply() {
    let mut rows = Task::create_result_data();
    rows.reverse();
    let tasks = all_tasks(read_all_tasks(Ok(rows)));
    let mut expected = Task::create_result_data();
    expected.reverse();
    assert_eq!(tasks, expected);
}

#[test]
fn listing_keeps_rows_that_look_the_same() {
    let row = || Task::new(1, "n".to_string(), "d".to_string(), None, false);
    let tasks = all_tasks(read_all_tasks(Ok(vec![row(), row()])));
    assert_eq!(tasks, vec![row(), row()]);
}

#[test]
fn listing_answers_any_failure_with_internal_server_error() {
    for failure in [StoreFailure::Other, StoreFailure::NotFound, StoreFailure::ConstraintViolation]
    {
        failed(
            read_all_tasks(Err(failure)),
            ErrorCodes::InternalServerError,
            500,
            "Something went wrong with the database.",
        );
    }
}

#[test]
fn read_shows_the_task() {
    let row = Task::new(3, "n".to_string(), "d".to_string(), Some(9), true);
    let task = one_task(read_task_by_id(Ok(row)), 200);
    assert_eq!(task, Task::new(3, "n".to_string(), "d".to_string(), Some(9), true));
}

#[test]
fn read_of_an_unknown_id_is_invalid_id() {
    let id = parse_id("9999").unwrap();
    assert_eq!(Task::read_by_id(id).params(), &vec![SqlValue::Integer(9999)]);
    failed(
        read_task_by_id(Err(StoreFailure::NotFound)),
        ErrorCodes::InvalidId,
        404,
        "Incorrect id specified, could not find task",
    );
}

#[test]
fn read_answers_other_failures_with_internal_server_error() {
    for failure in [StoreFailure::Other, StoreFailure::ConstraintViolation] {
        failed(
            read_task_by_id(Err(failure)),
            ErrorCodes::InternalServerError,
            500,
            "Something went wrong with the database",
        );
    }
}

#[test]
fn update_shows_the_task_with_the_fields_of_the_input() {
    let input = NewTask::new("read".to_string(), "a book".to_string(), Some(77), Some(true));
    let statement = Task::update(4, &input);
    assert_eq!(statement.params()[0], SqlValue::Integer(4));
    let task = one_task(update_task(Ok(persisted(4, &input))), 200);
    assert_eq!(task.id(), 4);
    assert_eq!(task.name(), input.name());
    assert_eq!(task.description(), input.description());
    assert_eq!(task.due_date(), input.due_date());
    assert_eq!(task.is_complete(), input.is_complete());
    let read = one_task(read_task_by_id(Ok(persisted(4, &input))), 200);
    assert_eq!(read, task);
}

#[test]
fn update_of_an_unknown_id_is_invalid_id() {
    failed(
        update_task(Err(StoreFailure::NotFound)),
        ErrorCodes::InvalidId,
        404,
        "Incorrect id specified, could not find task",
    );
}

#[test]
fn update_answers_a_refused_input_with_invalid_input() {
    failed(
        update_task(Err(StoreFailure::ConstraintViolation)),
        ErrorCodes::InvalidInput,
        400,
        "Database said invalid input.",
    );
}

#[test]
fn update_answers_other_failures_with_internal_server_error() {
    failed(
        update_task(Err(StoreFailure::Other)),
        ErrorCodes::InternalServerError,
        500,
        "Something went wrong with the database",
    );
}

#[test]
fn update_with_a_malformed_body_is_invalid_input() {
    let error = payload_error(PayloadFailure::Malformed);
    assert_eq!(error.code(), ErrorCodes::InvalidInput);
    assert_eq!(error.status_code(), 400);
    assert_eq!(error.msg(), "Incorrect Syntax applied");
}

#[test]
fn delete_has_no_content() {
    let response = delete_task(Ok(1)).expect("a response");
    assert_eq!(response.status(), 204);
    assert!(matches!(response.body(), Body::Empty));
}

#[test]
fn delete_of_an_id_never_created_has_no_content() {
    let id = parse_id("31337").unwrap();
    let statement = Task::delete(id);
    assert_eq!(statement.params(), &vec![SqlValue::Integer(31337)]);
    let response = delete_task(Ok(0)).expect("a response");
    assert_eq!(response.status(), 204);
    assert!(matches!(response.into_body(), Body::Empty));
}

#[test]
fn delete_has_no_content_however_many_rows_went() {
    for deleted in [0, 1, 2, u64::MAX] {
        let response = delete_task(Ok(deleted)).expect("a response");
        assert_eq!(response.status(), 204);
        assert!(matches!(response.body(), Body::Empty));
    }
}

#[test]
fn delete_answers_a_refused_statement_with_invalid_input() {
    failed(
        delete_task(Err(StoreFailure::ConstraintViolation)),
        ErrorCodes::InvalidInput,
        400,
        "Database said invalid input.",
    );
}

#[test]
fn delete_answers_other_failures_with_internal_server_error() {
    for failure in [StoreFailure::Other, StoreFailure::NotFound] {
        failed(
            delete_task(Err(failure)),
            ErrorCodes::InternalServerError,
            500,
            "Something went wrong with the database",
        );
    }
}

#[test]
fn delete_is_never_answered_with_invalid_id() {
    let replies = [
        Ok(0),
        Ok(1),
        Err(StoreFailure::NotFound),
        Err(StoreFailure::ConstraintViolation),
        Err(StoreFailure::Other),
    ];
    for reply in replies {
        if let Err(error) = delete_task(reply) {
            assert_ne!(error.code(), ErrorCodes::InvalidId);
            assert_ne!(error.status_code(), 404);
        }
    }
}

#[test]
fn a_malformed_id_is_answered_before_the_store_is_asked() {
    let error = parse_id("nine").expect_err("no id");
    assert_eq!(error.code(), ErrorCodes::InvalidInput);
    assert_eq!(error.status_code(), 400);
}
