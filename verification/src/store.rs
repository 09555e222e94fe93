//! What the store is asked to do, and how it can fail.
//!
//! The store is a relational table `tasks` with the columns `id`, `name`,
//! `description`, `due_date` and `is_complete`. Each operation on it is one
//! [`Statement`]: a text with numbered placeholders, and the values bound to
//! them in order. Running a statement is left to the caller.

use vstd::prelude::*;
use crate::model::{new_task, persisted, NewTask, NewTaskView, Task};

verus! {

/// Inserts a row and returns it with the id that the store gave it.
pub const INSERT_TASK: &'static str =
    "INSERT INTO tasks (name, description, due_date, is_complete) VALUES ($1, $2, $3, $4) RETURNING id, name, description, due_date, is_complete";

/// Selects every row.
pub const SELECT_TASKS: &'static str = "SELECT * FROM tasks";

/// Selects the row with the id bound to `$1`.
pub const SELECT_TASK: &'static str = "SELECT * FROM tasks WHERE id = $1";

/// Overwrites every field but the id of the row with the id bound to `$1`,
/// and returns the row as it then stands.
pub const UPDATE_TASK: &'static str =
    "UPDATE tasks SET name = $2, description = $3, due_date = $4, is_complete = $5 WHERE id = $1 RETURNING id, name, description, due_date, is_complete";

/// Deletes the row with the id bound to `$1`, if there is one.
pub const DELETE_TASK: &'static str = "DELETE FROM tasks WHERE id = $1";

/// How a store operation can fail, told apart by the category of the failure
/// and never by its text.
#[derive(Clone, Copy, Debug, PartialEq, Eq, Structural)]
pub enum StoreFailure {
    /// The statement asked for one row and no row matched.
    NotFound,
    /// The store refused the statement, as it does when a write breaks a
    /// constraint of a column.
    ConstraintViolation,
    /// Anything else: the store could not be reached, or the driver failed.
    Other,
}

/// A value bound to a placeholder of a statement.
#[derive(Debug)]
pub enum SqlValue {
    /// A 32-bit integer: an id.
    Integer(i32),
    /// A 64-bit integer that may be null: a due date.
    BigInt(Option<i64>),
    /// A text: a name or a description.
    Text(String),
    /// A truth value: a completion flag.
    Boolean(bool),
}

/// A [`SqlValue`] as a mathematical value.
pub ghost enum SqlValueView {
    Integer(i32),
    BigInt(Option<i64>),
    Text(Seq<char>),
    Boolean(bool),
}

impl View for SqlValue {
    type V = SqlValueView;

    open spec fn view(&self) -> SqlValueView {
        match self {
            SqlValue::Integer(value) => SqlValueView::Integer(*value),
            SqlValue::BigInt(value) => SqlValueView::BigInt(*value),
            SqlValue::Text(value) => SqlValueView::Text(value@),
            SqlValue::Boolean(value) => SqlValueView::Boolean(*value),
        }
    }
}

impl PartialEq for SqlValue {
    fn eq(&self, other: &SqlValue) -> (equal: bool) {
        match (self, other) {
            (SqlValue::Integer(left), SqlValue::Integer(right)) => *left == *right,
            (SqlValue::BigInt(left), SqlValue::BigInt(right)) => *left == *right,
            (SqlValue::Text(left), SqlValue::Text(right)) => *left == *right,
            (SqlValue::Boolean(left), SqlValue::Boolean(right)) => *left == *right,
            _ => false,
        }
    }
}

/// Two bound values are equal when they are of the same kind and hold the
/// same value.
impl vstd::std_specs::cmp::PartialEqSpecImpl for SqlValue {
    open spec fn obeys_eq_spec() -> bool {
        true
    }

    open spec fn eq_spec(&self, other: &SqlValue) -> bool {
        self@ == other@
    }
}

/// One operation on the store: `sql` with the placeholders `$1`, `$2`, ...,
/// and `params`, of which the first is bound to `$1`, the second to `$2`,
/// and so on.
#[derive(Debug)]
pub struct Statement {
    sql: &'static str,
    params: Vec<SqlValue>,
}

/// A [`Statement`] as a mathematical value.
pub ghost struct StatementView {
    pub sql: Seq<char>,
    pub params: Seq<SqlValueView>,
}

/// The views of a sequence of bound values, in the same order.
pub open spec fn sql_value_views(values: Seq<SqlValue>) -> Seq<SqlValueView> {
    values.map_values(|value: SqlValue| value@)
}

impl View for Statement {
    type V = StatementView;

    closed spec fn view(&self) -> StatementView {
        StatementView { sql: self.sql@, params: sql_value_views(self.params@) }
    }
}

/// The statement that creates a task from `input`.
pub open spec fn create_statement(input: NewTaskView) -> StatementView {
    StatementView {
        sql: INSERT_TASK@,
        params: seq![
            SqlValueView::Text(input.name),
            SqlValueView::Text(input.description),
            SqlValueView::BigInt(input.due_date),
            SqlValueView::Boolean(input.is_complete),
        ],
    }
}

/// The statement that reads every task.
pub open spec fn read_all_statement() -> StatementView {
    StatementView { sql: SELECT_TASKS@, params: seq![] }
}

/// The statement that reads the task with the id `id`.
pub open spec fn read_by_id_statement(id: i32) -> StatementView {
    StatementView { sql: SELECT_TASK@, params: seq![SqlValueView::Integer(id)] }
}

/// The statement that replaces every field but the id of the task with the
/// id `id` by the fields of `input`.
pub open spec fn update_statement(id: i32, input: NewTaskView) -> StatementView {
    StatementView {
        sql: UPDATE_TASK@,
        params: seq![
            SqlValueView::Integer(id),
            SqlValueView::Text(input.name),
            SqlValueView::Text(input.description),
            SqlValueView::BigInt(input.due_date),
            SqlValueView::Boolean(input.is_complete),
        ],
    }
}

/// The statement that deletes the task with the id `id`.
pub open spec fn delete_statement(id: i32) -> StatementView {
    StatementView { sql: DELETE_TASK@, params: seq![SqlValueView::Integer(id)] }
}

impl Statement {
    /// The text of the statement.
    pub fn sql(&self) -> (sql: &'static str)
        ensures
            sql@ == self@.sql,
    {
        self.sql
    }

    /// The bound values, in the order of their placeholders.
    pub fn params(&self) -> (params: &Vec<SqlValue>)
        ensures
            sql_value_views(params@) == self@.params,
    {
        &self.params
    }
}

impl Task {
    /// The statement that creates a task from `task`. The store answers it
    /// with the one row that it inserted.
    pub fn create(task: &NewTask) -> (statement: Statement)
        ensures
            statement@ == create_statement(task@),
    {
        let params = vec![
            SqlValue::Text(task.name().to_string()),
            SqlValue::Text(task.description().to_string()),
            SqlValue::BigInt(task.due_date()),
            SqlValue::Boolean(task.is_complete()),
        ];
        assert(sql_value_views(params@) =~= create_statement(task@).params);
        Statement { sql: INSERT_TASK, params }
    }

    /// The statement that reads every task. The store answers it with all
    /// its rows, in an order of its own choosing.
    pub fn read_all() -> (statement: Statement)
        ensures
            statement@ == read_all_statement(),
    {
        let params: Vec<SqlValue> = Vec::new();
        assert(sql_value_views(params@) =~= read_all_statement().params);
        Statement { sql: SELECT_TASKS, params }
    }

    /// The statement that reads the task with the id `id`. The store answers
    /// it with that row, or fails with [`StoreFailure::NotFound`].
    pub fn read_by_id(id: i32) -> (statement: Statement)
        ensures
            statement@ == read_by_id_statement(id),
    {
        let params = vec![SqlValue::Integer(id)];
        assert(sql_value_views(params@) =~= read_by_id_statement(id).params);
        Statement { sql: SELECT_TASK, params }
    }

    /// The statement that replaces every field but the id of the task with
    /// the id `id` by the fields of `task`. The store answers it with the
    /// row as it then stands, or fails with [`StoreFailure::NotFound`].
    pub fn update(id: i32, task: &NewTask) -> (statement: Statement)
        ensures
            statement@ == update_statement(id, task@),
    {
        let params = vec![
            SqlValue::Integer(id),
            SqlValue::Text(task.name().to_string()),
            SqlValue::Text(task.description().to_string()),
            SqlValue::BigInt(task.due_date()),
            SqlValue::Boolean(task.is_complete()),
        ];
        assert(sql_value_views(params@) =~= update_statement(id, task@).params);
        Statement { sql: UPDATE_TASK, params }
    }

    /// The statement that deletes the task with the id `id`. The store
    /// carries it out whether or not a row has that id, and answers it with
    /// the number of rows that it deleted.
    pub fn delete(id: i32) -> (statement: Statement)
        ensures
            statement@ == delete_statement(id),
    {
        let params = vec![SqlValue::Integer(id)];
        assert(sql_value_views(params@) =~= delete_statement(id).params);
        Statement { sql: DELETE_TASK, params }
    }
}

/// An input made without a completion flag is not complete, and neither is
/// the task created from it: the statement binds `false` to the flag's
/// placeholder, and the row persisted under any id is not complete.
pub proof fn lemma_completion_defaults_to_false(
    name: Seq<char>,
    description: Seq<char>,
    due_date: Option<i64>,
    id: i32,
)
    ensures
        !new_task(name, description, due_date, None).is_complete,
        create_statement(new_task(name, description, due_date, None)).params[3]
            == SqlValueView::Boolean(false),
        !persisted(id, new_task(name, description, due_date, None)).is_complete,
{
}

} // verus!
