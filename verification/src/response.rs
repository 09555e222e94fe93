//! What a client is sent when a request succeeds.

use vstd::prelude::*;
use crate::model::{task_views, Task, TaskView};

verus! {

/// Transport status of a request that read or replaced something.
pub const OK: u16 = 200;

/// Transport status of a request that created a task.
pub const CREATED: u16 = 201;

/// Transport status of a request that succeeded and has nothing to show.
pub const NO_CONTENT: u16 = 204;

/// The body of a response.
#[derive(Debug)]
pub enum Body {
    /// Nothing.
    Empty,
    /// One task.
    Task(Task),
    /// Any number of tasks, in the order in which the store returned them.
    Tasks(Vec<Task>),
}

/// A [`Body`] as a mathematical value.
pub ghost enum BodyView {
    Empty,
    Task(TaskView),
    Tasks(Seq<TaskView>),
}

impl View for Body {
    type V = BodyView;

    open spec fn view(&self) -> BodyView {
        match self {
            Body::Empty => BodyView::Empty,
            Body::Task(task) => BodyView::Task(task@),
            Body::Tasks(tasks) => BodyView::Tasks(task_views(tasks@)),
        }
    }
}

/// A response to a request that succeeded: its transport status and body.
#[derive(Debug)]
pub struct Response {
    status: u16,
    body: Body,
}

/// A [`Response`] as a mathematical value.
pub ghost struct ResponseView {
    pub status: u16,
    pub body: BodyView,
}

impl View for Response {
    type V = ResponseView;

    closed spec fn view(&self) -> ResponseView {
        ResponseView { status: self.status, body: self.body@ }
    }
}

impl Response {
    /// The response with the given status and body.
    pub fn new(status: u16, body: Body) -> (response: Response)
        ensures
            response@ == (ResponseView { status, body: body@ }),
    {
        Response { status, body }
    }

    /// The transport status.
    pub fn status(&self) -> (status: u16)
        ensures
            status == self@.status,
    {
        self.status
    }

    /// The body.
    pub fn body(&self) -> (body: &Body)
        ensures
            body@ == self@.body,
    {
        &self.body
    }

    /// The body, by value.
    pub fn into_body(self) -> (body: Body)
        ensures
            body@ == self@.body,
    {
        self.body
    }
}

} // verus!
