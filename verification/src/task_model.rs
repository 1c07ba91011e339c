//! Tasks and the shapes in which they enter and leave the service.

use vstd::prelude::*;
use crate::text::{clone_opt, opt_view};

verus! {

/// How far a task has come.
#[derive(Clone, Copy, Debug, PartialEq, Eq, Structural)]
pub enum TaskStatus {
    Pending,
    InProgress,
    Completed,
}

impl TaskStatus {
    /// The name under which the status is stored.
    pub open spec fn name(self) -> Seq<char> {
        match self {
            TaskStatus::Pending => "Pending"@,
            TaskStatus::InProgress => "InProgress"@,
            TaskStatus::Completed => "Completed"@,
        }
    }

    pub fn as_str(self) -> (text: &'static str)
        ensures
            text@ == self.name(),
    {
        match self {
            TaskStatus::Pending => "Pending",
            TaskStatus::InProgress => "InProgress",
            TaskStatus::Completed => "Completed",
        }
    }
}

/// The status a task gets when the client names none.
pub open spec fn status_or_pending(status: Option<TaskStatus>) -> TaskStatus {
    match status {
        Some(s) => s,
        None => TaskStatus::Pending,
    }
}

/// A task as the store keeps it. The two instants are kept as text, in the
/// form in which they are stored.
#[derive(Debug, PartialEq, Eq)]
pub struct Task {
    pub id: Option<String>,
    pub title: String,
    pub description: Option<String>,
    pub status: TaskStatus,
    pub user_id: String,
    pub created_at: String,
    pub updated_at: String,
}

/// A task as it is shown to a client.
#[derive(Debug, PartialEq, Eq)]
pub struct TaskResponse {
    pub id: Option<String>,
    pub title: String,
    pub description: Option<String>,
    pub status: TaskStatus,
    pub user_id: String,
    pub created_at: String,
    pub updated_at: String,
}

/// What a `Task` or a `TaskResponse` holds.
pub struct TaskView {
    pub id: Option<Seq<char>>,
    pub title: Seq<char>,
    pub description: Option<Seq<char>>,
    pub status: TaskStatus,
    pub user_id: Seq<char>,
    pub created_at: Seq<char>,
    pub updated_at: Seq<char>,
}

impl View for Task {
    type V = TaskView;

    open spec fn view(&self) -> TaskView {
        TaskView {
            id: opt_view(self.id),
            title: self.title@,
            description: opt_view(self.description),
            status: self.status,
            user_id: self.user_id@,
            created_at: self.created_at@,
            updated_at: self.updated_at@,
        }
    }
}

impl View for TaskResponse {
    type V = TaskView;

    open spec fn view(&self) -> TaskView {
        TaskView {
            id: opt_view(self.id),
            title: self.title@,
            description: opt_view(self.description),
            status: self.status,
            user_id: self.user_id@,
            created_at: self.created_at@,
            updated_at: self.updated_at@,
        }
    }
}

/// What a client sends to create a task.
#[derive(Debug, PartialEq, Eq)]
pub struct NewTask {
    pub title: String,
    pub description: Option<String>,
    pub status: Option<TaskStatus>,
    pub user_id: String,
}

/// What a client sends to change a task: only what is present is changed.
#[derive(Debug, PartialEq, Eq)]
pub struct UpdateTask {
    pub title: Option<String>,
    pub description: Option<String>,
    pub status: Option<TaskStatus>,
}

impl Task {
    /// The task as it is shown to a client: every field as it is stored.
    pub fn response(&self) -> (shown: TaskResponse)
        ensures
            shown@ == self@,
    {
        TaskResponse {
            id: clone_opt(&self.id),
            title: self.title.clone(),
            description: clone_opt(&self.description),
            status: self.status,
            user_id: self.user_id.clone(),
            created_at: self.created_at.clone(),
            updated_at: self.updated_at.clone(),
        }
    }
}

/// The views of `tasks`, in their order.
pub open spec fn task_views(tasks: Seq<Task>) -> Seq<TaskView> {
    tasks.map(|i: int, t: Task| t@)
}

/// The views of `shown`, in their order.
pub open spec fn shown_views(shown: Seq<TaskResponse>) -> Seq<TaskView> {
    shown.map(|i: int, t: TaskResponse| t@)
}

} // verus!
