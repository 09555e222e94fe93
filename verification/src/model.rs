//! The task record and the input from which one is made.

use vstd::prelude::*;

verus! {

/// A task as the store holds it.
#[derive(Debug)]
pub struct Task {
    id: i32,
    name: String,
    description: String,
    due_date: Option<i64>,
    is_complete: bool,
}

/// What a client supplies to create a task, or to replace every field of one
/// but its id.
#[derive(Debug)]
pub struct NewTask {
    name: String,
    description: String,
    due_date: Option<i64>,
    is_complete: bool,
}

/// A [`Task`] as a mathematical value. `due_date` counts milliseconds since
/// the epoch; `None` means that the task has no due date.
pub ghost struct TaskView {
    pub id: i32,
    pub name: Seq<char>,
    pub description: Seq<char>,
    pub due_date: Option<i64>,
    pub is_complete: bool,
}

/// A [`NewTask`] as a mathematical value.
pub ghost struct NewTaskView {
    pub name: Seq<char>,
    pub description: Seq<char>,
    pub due_date: Option<i64>,
    pub is_complete: bool,
}

impl View for Task {
    type V = TaskView;

    closed spec fn view(&self) -> TaskView {
        TaskView {
            id: self.id,
            name: self.name@,
            description: self.description@,
            due_date: self.due_date,
            is_complete: self.is_complete,
        }
    }
}

impl View for NewTask {
    type V = NewTaskView;

    closed spec fn view(&self) -> NewTaskView {
        NewTaskView {
            name: self.name@,
            description: self.description@,
            due_date: self.due_date,
            is_complete: self.is_complete,
        }
    }
}

impl PartialEq for Task {
    fn eq(&self, other: &Task) -> (equal: bool) {
        self.id == other.id && self.name == other.name && self.description == other.description
            && self.due_date == other.due_date && self.is_complete == other.is_complete
    }
}

/// Two tasks are equal when all their fields are.
impl vstd::std_specs::cmp::PartialEqSpecImpl for Task {
    open spec fn obeys_eq_spec() -> bool {
        true
    }

    open spec fn eq_spec(&self, other: &Task) -> bool {
        self@ == other@
    }
}

impl PartialEq for NewTask {
    fn eq(&self, other: &NewTask) -> (equal: bool) {
        self.name == other.name && self.description == other.description && self.due_date
            == other.due_date && self.is_complete == other.is_complete
    }
}

/// Two inputs are equal when all their fields are.
impl vstd::std_specs::cmp::PartialEqSpecImpl for NewTask {
    open spec fn obeys_eq_spec() -> bool {
        true
    }

    open spec fn eq_spec(&self, other: &NewTask) -> bool {
        self@ == other@
    }
}

/// The views of a sequence of tasks, in the same order.
pub open spec fn task_views(tasks: Seq<Task>) -> Seq<TaskView> {
    tasks.map_values(|task: Task| task@)
}

/// The views of a sequence of inputs, in the same order.
pub open spec fn new_task_views(tasks: Seq<NewTask>) -> Seq<NewTaskView> {
    tasks.map_values(|task: NewTask| task@)
}

/// The row that the store holds once it has given `id` to `input`.
pub open spec fn persisted(id: i32, input: NewTaskView) -> TaskView {
    TaskView {
        id,
        name: input.name,
        description: input.description,
        due_date: input.due_date,
        is_complete: input.is_complete,
    }
}

/// The input with the given fields. A completion flag left out is `false`.
pub open spec fn new_task(
    name: Seq<char>,
    description: Seq<char>,
    due_date: Option<i64>,
    is_complete: Option<bool>,
) -> NewTaskView {
    NewTaskView {
        name,
        description,
        due_date,
        is_complete: match is_complete {
            Some(flag) => flag,
            None => false,
        },
    }
}

/// The due date shared by the sample tasks that have one.
pub const SAMPLE_DUE_DATE: i64 = 1625443200000;

/// The inputs of [`Task::create_test_data`].
pub open spec fn sample_inputs() -> Seq<NewTaskView> {
    seq![
        NewTaskView {
            name: "Test Task 1"@,
            description: "Test Task 1 description"@,
            due_date: None,
            is_complete: false,
        },
        NewTaskView {
            name: "Test Task 2"@,
            description: "Test Task 2 description"@,
            due_date: None,
            is_complete: true,
        },
        NewTaskView {
            name: "Test Task 3"@,
            description: "Test Task 3 description"@,
            due_date: Some(SAMPLE_DUE_DATE),
            is_complete: false,
        },
        NewTaskView {
            name: "Test Task 4"@,
            description: "Test Task 4 description"@,
            due_date: Some(SAMPLE_DUE_DATE),
            is_complete: true,
        },
        NewTaskView {
            name: "Test Task 5"@,
            description: "Test Task 5 description"@,
            due_date: Some(SAMPLE_DUE_DATE),
            is_complete: true,
        },
    ]
}

/// The rows of [`Task::create_result_data`]: the sample inputs, persisted in
/// order by a store that hands out the ids 1, 2, 3, 4, 5.
pub open spec fn sample_rows() -> Seq<TaskView> {
    Seq::new(5, |i: int| persisted((i + 1) as i32, sample_inputs()[i]))
}

impl NewTask {
    /// An input with the given fields. A completion flag left out is `false`.
    pub fn new(
        name: String,
        description: String,
        due_date: Option<i64>,
        is_complete: Option<bool>,
    ) -> (task: NewTask)
        ensures
            task@ == new_task(name@, description@, due_date, is_complete),
    {
        let is_complete = match is_complete {
            Some(flag) => flag,
            None => false,
        };
        NewTask { name, description, due_date, is_complete }
    }

    /// The name of the task to be.
    pub fn name(&self) -> (name: &str)
        ensures
            name@ == self@.name,
    {
        self.name.as_str()
    }

    /// The description of the task to be.
    pub fn description(&self) -> (description: &str)
        ensures
            description@ == self@.description,
    {
        self.description.as_str()
    }

    /// The due date, in milliseconds since the epoch, if there is one.
    pub fn due_date(&self) -> (due_date: Option<i64>)
        ensures
            due_date == self@.due_date,
    {
        self.due_date
    }

    /// Whether the task is to count as done.
    pub fn is_complete(&self) -> (is_complete: bool)
        ensures
            is_complete == self@.is_complete,
    {
        self.is_complete
    }
}

impl Task {
    /// The row with the given id and fields.
    pub fn new(
        id: i32,
        name: String,
        description: String,
        due_date: Option<i64>,
        is_complete: bool,
    ) -> (task: Task)
        ensures
            task@ == (TaskView { id, name: name@, description: description@, due_date, is_complete }),
    {
        Task { id, name, description, due_date, is_complete }
    }

    /// The id that the store gave the task.
    pub fn id(&self) -> (id: i32)
        ensures
            id == self@.id,
    {
        self.id
    }

    /// The name of the task.
    pub fn name(&self) -> (name: &str)
        ensures
            name@ == self@.name,
    {
        self.name.as_str()
    }

    /// The description of the task.
    pub fn description(&self) -> (description: &str)
        ensures
            description@ == self@.description,
    {
        self.description.as_str()
    }

    /// The due date, in milliseconds since the epoch, if there is one.
    pub fn due_date(&self) -> (due_date: Option<i64>)
        ensures
            due_date == self@.due_date,
    {
        self.due_date
    }

    /// Whether the task counts as done.
    pub fn is_complete(&self) -> (is_complete: bool)
        ensures
            is_complete == self@.is_complete,
    {
        self.is_complete
    }

    /// Five sample inputs, for trying a store out.
    pub fn create_test_data() -> (tasks: Vec<NewTask>)
        ensures
            new_task_views(tasks@) == sample_inputs(),
    {
        let tasks = vec![
            NewTask {
                name: "Test Task 1".to_string(),
                description: "Test Task 1 description".to_string(),
                due_date: None,
                is_complete: false,
            },
            NewTask {
                name: "Test Task 2".to_string(),
                description: "Test Task 2 description".to_string(),
                due_date: None,
                is_complete: true,
            },
            NewTask {
                name: "Test Task 3".to_string(),
                description: "Test Task 3 description".to_string(),
                due_date: Some(SAMPLE_DUE_DATE),
                is_complete: false,
            },
            NewTask {
                name: "Test Task 4".to_string(),
                description: "Test Task 4 description".to_string(),
                due_date: Some(SAMPLE_DUE_DATE),
                is_complete: true,
            },
            NewTask {
                name: "Test Task 5".to_string(),
                description: "Test Task 5 description".to_string(),
                due_date: Some(SAMPLE_DUE_DATE),
                is_complete: true,
            },
        ];
        assert(new_task_views(tasks@) =~= sample_inputs());
        tasks
    }

    /// The rows that an empty store returns, in order, when the inputs of
    /// [`Task::create_test_data`] are created in it one after the other.
    pub fn create_result_data() -> (tasks: Vec<Task>)
        ensures
            task_views(tasks@) == sample_rows(),
    {
        let tasks = vec![
            Task {
                id: 1,
                name: "Test Task 1".to_string(),
                description: "Test Task 1 description".to_string(),
                due_date: None,
                is_complete: false,
            },
            Task {
                id: 2,
                name: "Test Task 2".to_string(),
                description: "Test Task 2 description".to_string(),
                due_date: None,
                is_complete: true,
            },
            Task {
                id: 3,
                name: "Test Task 3".to_string(),
                description: "Test Task 3 description".to_string(),
                due_date: Some(SAMPLE_DUE_DATE),
                is_complete: false,
            },
            Task {
                id: 4,
                name: "Test Task 4".to_string(),
                description: "Test Task 4 description".to_string(),
                due_date: Some(SAMPLE_DUE_DATE),
                is_complete: true,
            },
            Task {
                id: 5,
                name: "Test Task 5".to_string(),
                description: "Test Task 5 description".to_string(),
                due_date: Some(SAMPLE_DUE_DATE),
                is_complete: true,
            },
        ];
        assert(task_views(tasks@) =~= sample_rows());
        tasks
    }
}

} // verus!
