//! One function for each request that the service answers.
//!
//! A request is answered in two steps. The caller runs the statement of the
//! operation (see [`crate::store`]) against the store; the function here
//! then turns the store's reply into what the client is sent: a
//! [`Response`] where the operation succeeded, a [`ClientError`] where it
//! failed. A failure of the store reaches the client as a kind and a fixed
//! message, never in the store's own words.
//!
//! | Request            | Statement            | Reply shaped by       | Success        |
//! |--------------------|----------------------|-----------------------|----------------|
//! | `POST /task`       | [`Task::create`]     | [`create_task`]       | 201, the task  |
//! | `GET /tasks`       | [`Task::read_all`]   | [`read_all_tasks`]    | 200, all tasks |
//! | `GET /task/{id}`   | [`Task::read_by_id`] | [`read_task_by_id`]   | 200, the task  |
//! | `PUT /task/{id}`   | [`Task::update`]     | [`update_task`]       | 200, the task  |
//! | `DELETE /task/{id}`| [`Task::delete`]     | [`delete_task`]       | 204, no body   |

use vstd::prelude::*;
use crate::errors::{ClientError, ClientErrorView, ErrorCodes};
use crate::model::{persisted, task_views, NewTaskView, Task, TaskView};
use crate::response::{Body, BodyView, Response, ResponseView, CREATED, NO_CONTENT, OK};
use crate::store::{read_by_id_statement, update_statement, SqlValueView, StoreFailure};

verus! {

/// What a handler returns, as a mathematical value.
pub open spec fn answer_view(answer: Result<Response, ClientError>) -> Result<
    ResponseView,
    ClientErrorView,
> {
    match answer {
        Ok(response) => Ok(response@),
        Err(error) => Err(error@),
    }
}

/// The store's reply to a statement that returns one row, as a mathematical
/// value.
pub open spec fn row_view(outcome: Result<Task, StoreFailure>) -> Result<TaskView, StoreFailure> {
    match outcome {
        Ok(task) => Ok(task@),
        Err(failure) => Err(failure),
    }
}

/// The store's reply to a statement that returns any number of rows, as a
/// mathematical value.
pub open spec fn rows_view(outcome: Result<Vec<Task>, StoreFailure>) -> Result<
    Seq<TaskView>,
    StoreFailure,
> {
    match outcome {
        Ok(tasks) => Ok(task_views(tasks@)),
        Err(failure) => Err(failure),
    }
}

/// The store refused what the client sent.
pub open spec fn rejected_input() -> ClientErrorView {
    ClientErrorView { code: ErrorCodes::InvalidInput, msg: "Database said invalid input."@ }
}

/// The client named a task that the store does not hold.
pub open spec fn unknown_id() -> ClientErrorView {
    ClientErrorView {
        code: ErrorCodes::InvalidId,
        msg: "Incorrect id specified, could not find task"@,
    }
}

/// The store failed while it created or listed tasks.
pub open spec fn store_failed_on_collection() -> ClientErrorView {
    ClientErrorView {
        code: ErrorCodes::InternalServerError,
        msg: "Something went wrong with the database."@,
    }
}

/// The store failed while it worked on one task.
pub open spec fn store_failed_on_task() -> ClientErrorView {
    ClientErrorView {
        code: ErrorCodes::InternalServerError,
        msg: "Something went wrong with the database"@,
    }
}

/// The error for a failed read of the one task that a request named.
pub open spec fn read_failure(failure: StoreFailure) -> ClientErrorView {
    match failure {
        StoreFailure::NotFound => unknown_id(),
        _ => store_failed_on_task(),
    }
}

/// The error for a failed update of the one task that a request named.
pub open spec fn update_failure(failure: StoreFailure) -> ClientErrorView {
    match failure {
        StoreFailure::NotFound => unknown_id(),
        StoreFailure::ConstraintViolation => rejected_input(),
        StoreFailure::Other => store_failed_on_task(),
    }
}

/// The error for a failed deletion. A deletion never names an unknown id:
/// the store deletes what rows there are, and a store that fails for want of
/// a row has failed for a reason of its own.
pub open spec fn delete_failure(failure: StoreFailure) -> ClientErrorView {
    match failure {
        StoreFailure::ConstraintViolation => rejected_input(),
        _ => store_failed_on_task(),
    }
}

/// The answer to `POST /task`.
pub open spec fn create_task_answer(outcome: Result<TaskView, StoreFailure>) -> Result<
    ResponseView,
    ClientErrorView,
> {
    match outcome {
        Ok(task) => Ok(ResponseView { status: CREATED, body: BodyView::Task(task) }),
        Err(StoreFailure::ConstraintViolation) => Err(rejected_input()),
        Err(_) => Err(store_failed_on_collection()),
    }
}

/// The answer to `GET /tasks`.
pub open spec fn read_all_tasks_answer(outcome: Result<Seq<TaskView>, StoreFailure>) -> Result<
    ResponseView,
    ClientErrorView,
> {
    match outcome {
        Ok(tasks) => Ok(ResponseView { status: OK, body: BodyView::Tasks(tasks) }),
        Err(_) => Err(store_failed_on_collection()),
    }
}

/// The answer to `GET /task/{id}`.
pub open spec fn read_task_by_id_answer(outcome: Result<TaskView, StoreFailure>) -> Result<
    ResponseView,
    ClientErrorView,
> {
    match outcome {
        Ok(task) => Ok(ResponseView { status: OK, body: BodyView::Task(task) }),
        Err(failure) => Err(read_failure(failure)),
    }
}

/// The answer to `PUT /task/{id}`.
pub open spec fn update_task_answer(outcome: Result<TaskView, StoreFailure>) -> Result<
    ResponseView,
    ClientErrorView,
> {
    match outcome {
        Ok(task) => Ok(ResponseView { status: OK, body: BodyView::Task(task) }),
        Err(failure) => Err(update_failure(failure)),
    }
}

/// The answer to `DELETE /task/{id}`, from the number of rows that the store
/// deleted.
pub open spec fn delete_task_answer(outcome: Result<u64, StoreFailure>) -> Result<
    ResponseView,
    ClientErrorView,
> {
    match outcome {
        Ok(_) => Ok(ResponseView { status: NO_CONTENT, body: BodyView::Empty }),
        Err(failure) => Err(delete_failure(failure)),
    }
}

fn rejected_input_error() -> (error: ClientError)
    ensures
        error@ == rejected_input(),
{
    ClientError::new(ErrorCodes::InvalidInput, "Database said invalid input.".to_string())
}

fn unknown_id_error() -> (error: ClientError)
    ensures
        error@ == unknown_id(),
{
    ClientError::new(
        ErrorCodes::InvalidId,
        "Incorrect id specified, could not find task".to_string(),
    )
}

fn store_failed_on_collection_error() -> (error: ClientError)
    ensures
        error@ == store_failed_on_collection(),
{
    ClientError::new(
        ErrorCodes::InternalServerError,
        "Something went wrong with the database.".to_string(),
    )
}

fn store_failed_on_task_error() -> (error: ClientError)
    ensures
        error@ == store_failed_on_task(),
{
    ClientError::new(
        ErrorCodes::InternalServerError,
        "Something went wrong with the database".to_string(),
    )
}

/// Answers `POST /task` from the store's reply to [`Task::create`]: the new
/// task with status 201; `InvalidInput` where the store refused the input,
/// `InternalServerError` for any other failure.
pub fn create_task(outcome: Result<Task, StoreFailure>) -> (answer: Result<Response, ClientError>)
    ensures
        answer_view(answer) == create_task_answer(row_view(outcome)),
{
    match outcome {
        Ok(task) => Ok(Response::new(CREATED, Body::Task(task))),
        Err(StoreFailure::ConstraintViolation) => Err(rejected_input_error()),
        Err(_) => Err(store_failed_on_collection_error()),
    }
}

/// Answers `GET /tasks` from the store's reply to [`Task::read_all`]: every
/// row of the reply, in the reply's order, with status 200;
/// `InternalServerError` for any failure.
pub fn read_all_tasks(outcome: Result<Vec<Task>, StoreFailure>) -> (answer: Result<
    Response,
    ClientError,
>)
    ensures
        answer_view(answer) == read_all_tasks_answer(rows_view(outcome)),
{
    match outcome {
        Ok(tasks) => Ok(Response::new(OK, Body::Tasks(tasks))),
        Err(_) => Err(store_failed_on_collection_error()),
    }
}

/// Answers `GET /task/{id}` from the store's reply to [`Task::read_by_id`]:
/// the task with status 200; `InvalidId` where no row has the id,
/// `InternalServerError` for any other failure.
pub fn read_task_by_id(outcome: Result<Task, StoreFailure>) -> (answer: Result<
    Response,
    ClientError,
>)
    ensures
        answer_view(answer) == read_task_by_id_answer(row_view(outcome)),
{
    match outcome {
        Ok(task) => Ok(Response::new(OK, Body::Task(task))),
        Err(StoreFailure::NotFound) => Err(unknown_id_error()),
        Err(_) => Err(store_failed_on_task_error()),
    }
}

/// Answers `PUT /task/{id}` from the store's reply to [`Task::update`]: the
/// task as it now stands with status 200; `InvalidId` where no row has the
/// id, `InvalidInput` where the store refused the input,
/// `InternalServerError` for any other failure.
pub fn update_task(outcome: Result<Task, StoreFailure>) -> (answer: Result<Response, ClientError>)
    ensures
        answer_view(answer) == update_task_answer(row_view(outcome)),
{
    match outcome {
        Ok(task) => Ok(Response::new(OK, Body::Task(task))),
        Err(StoreFailure::NotFound) => Err(unknown_id_error()),
        Err(StoreFailure::ConstraintViolation) => Err(rejected_input_error()),
        Err(StoreFailure::Other) => Err(store_failed_on_task_error()),
    }
}

/// Answers `DELETE /task/{id}` from the store's reply to [`Task::delete`],
/// which is the number of rows that it deleted: status 204 and no body
/// wherever the store carried the statement out, also where no row had the
/// id and none was deleted; `InvalidInput` where the store refused the
/// statement, `InternalServerError` for any other failure. Unlike a read or
/// an update, a deletion is never answered with `InvalidId`.
pub fn delete_task(outcome: Result<u64, StoreFailure>) -> (answer: Result<Response, ClientError>)
    ensures
        answer_view(answer) == delete_task_answer(outcome),
{
    match outcome {
        Ok(_) => Ok(Response::new(NO_CONTENT, Body::Empty)),
        Err(StoreFailure::ConstraintViolation) => Err(rejected_input_error()),
        Err(_) => Err(store_failed_on_task_error()),
    }
}

/// A task reaches the client as the store returned it. The row that
/// answers [`Task::create`] is the body of the response to `POST /task`;
/// [`Task::read_by_id`] asks for a row by the id that was handed to it and
/// by nothing else; and where the store answers that statement with the same
/// row, the response to `GET /task/{id}` has the same body.
pub proof fn lemma_created_task_reads_back(row: TaskView)
    ensures
        create_task_answer(Ok(row)) == Ok::<ResponseView, ClientErrorView>(
            ResponseView { status: CREATED, body: BodyView::Task(row) },
        ),
        read_by_id_statement(row.id).params == seq![SqlValueView::Integer(row.id)],
        read_task_by_id_answer(Ok(row)) == Ok::<ResponseView, ClientErrorView>(
            ResponseView { status: OK, body: BodyView::Task(row) },
        ),
{
}

/// An update hands the store the id and every field of the input, each
/// bound to its own placeholder. Where the store answers with the row that
/// holds these fields under that id, the response to `PUT /task/{id}` shows
/// a task whose fields but the id are the input's.
pub proof fn lemma_update_replaces_every_field(id: i32, input: NewTaskView)
    ensures
        update_statement(id, input).params == seq![
            SqlValueView::Integer(id),
            SqlValueView::Text(input.name),
            SqlValueView::Text(input.description),
            SqlValueView::BigInt(input.due_date),
            SqlValueView::Boolean(input.is_complete),
        ],
        update_task_answer(Ok(persisted(id, input))) == Ok::<ResponseView, ClientErrorView>(
            ResponseView {
                status: OK,
                body: BodyView::Task(
                    TaskView {
                        id,
                        name: input.name,
                        description: input.description,
                        due_date: input.due_date,
                        is_complete: input.is_complete,
                    },
                ),
            },
        ),
{
}

/// A request for one task, to read it or to replace it, is answered with
/// `InvalidId` exactly when the store reports that no row has the id, and
/// `InvalidId` travels with status 404. A deletion is never answered with
/// `InvalidId`, whatever the store replies; one that the store carried out
/// is answered with status 204 and no body, however many rows it deleted:
/// one, or none because no row had the id.
pub proof fn lemma_unknown_id(
    reply: Result<TaskView, StoreFailure>,
    deletion: Result<u64, StoreFailure>,
)
    ensures
        (read_task_by_id_answer(reply) matches Err(error) && error.code == ErrorCodes::InvalidId)
            <==> reply == Err::<TaskView, StoreFailure>(StoreFailure::NotFound),
        (update_task_answer(reply) matches Err(error) && error.code == ErrorCodes::InvalidId)
            <==> reply == Err::<TaskView, StoreFailure>(StoreFailure::NotFound),
        ErrorCodes::InvalidId.status() == 404,
        !(delete_task_answer(deletion) matches Err(error) && error.code == ErrorCodes::InvalidId),
        deletion is Ok ==> delete_task_answer(deletion) == Ok::<ResponseView, ClientErrorView>(
            ResponseView { status: 204, body: BodyView::Empty },
        ),
{
}

/// A listing shows the client the rows of the store's reply: all of them,
/// each as often as the reply holds it, and in the reply's order.
pub proof fn lemma_listing_shows_every_row(rows: Seq<TaskView>)
    ensures
        read_all_tasks_answer(Ok(rows)) == Ok::<ResponseView, ClientErrorView>(
            ResponseView { status: OK, body: BodyView::Tasks(rows) },
        ),
{
}

} // verus!
