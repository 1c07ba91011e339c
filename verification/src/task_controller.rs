//! The decisions of the task handlers. Each handler is cut where it has to
//! wait for the store: one function says what to ask of the store, the next
//! what to make of the answer.

use vstd::prelude::*;
use crate::clock::{utc_now_rfc3339, utc_now_text};
use crate::http::{text_reply, Reply, StatusCode, TextReply, TextReplyView};
use crate::object_id::{is_object_id, parses_as_object_id};
use crate::store::{Changed, Fetched, Inserted, Lookup};
use crate::task_model::{
    shown_views, status_or_pending, task_views, NewTask, Task, TaskResponse, TaskStatus, TaskView,
    UpdateTask,
};
use crate::text::{blank, clone_opt, is_blank, opt_view};

verus! {

/// The task that a request creates, stamped with `stamp` as the instant of
/// both its creation and its last change.
pub open spec fn new_task(task: &NewTask, stamp: Seq<char>) -> TaskView {
    TaskView {
        id: None,
        title: task.title@,
        description: opt_view(task.description),
        status: status_or_pending(task.status),
        user_id: task.user_id@,
        created_at: stamp,
        updated_at: stamp,
    }
}

/// The first step of a creation: a title of whitespace ends it; otherwise
/// the store is asked to insert the new task.
pub open spec fn creation_start(task: &NewTask, stamp: Seq<char>) -> Result<
    TaskView,
    TextReplyView,
> {
    if blank(task.title@) {
        Err(text_reply(StatusCode::BadRequest, "Title is required"@))
    } else {
        Ok(new_task(task, stamp))
    }
}

/// What a step that asks for an insertion holds.
pub open spec fn insertion_view(step: Result<Task, TextReply>) -> Result<TaskView, TextReplyView> {
    match step {
        Ok(task) => Ok(task@),
        Err(reply) => Err(reply@),
    }
}

/// What a reply that carries one task holds.
pub open spec fn task_reply_view(reply: Reply<TaskResponse>) -> Result<TaskView, TextReplyView> {
    match reply {
        Reply::Json(task) => Ok(task@),
        Reply::Text(text) => Err(text@),
    }
}

/// What a reply that carries many tasks holds.
pub open spec fn tasks_reply_view(reply: Reply<Vec<TaskResponse>>) -> Result<
    Seq<TaskView>,
    TextReplyView,
> {
    match reply {
        Reply::Json(shown) => Ok(shown_views(shown@)),
        Reply::Text(text) => Err(text@),
    }
}

/// The last step of a creation: the task as it was inserted, under the key
/// that the store gave it.
pub open spec fn creation_inserted(task: TaskView, inserted: Inserted) -> Result<
    TaskView,
    TextReplyView,
> {
    match inserted {
        Inserted::Key(key) => Ok(TaskView { id: Some(key@), ..task }),
        Inserted::NoKey => Err(
            text_reply(StatusCode::InternalServerError, "Failed to get inserted ID"@),
        ),
        Inserted::Failed(why) => Err(
            text_reply(StatusCode::InternalServerError, "Error inserting task: "@ + why@),
        ),
    }
}

/// Begins the creation of a task, with `stamp` as the text of the current
/// instant.
pub fn create_task_at(task: &NewTask, stamp: String) -> (step: Result<Task, TextReply>)
    ensures
        insertion_view(step) == creation_start(task, stamp@),
{
    if is_blank(task.title.as_str()) {
        return Err(TextReply::message(StatusCode::BadRequest, "Title is required"));
    }
    let status = match task.status {
        Some(s) => s,
        None => TaskStatus::Pending,
    };
    Ok(
        Task {
            id: None,
            title: task.title.clone(),
            description: clone_opt(&task.description),
            status,
            user_id: task.user_id.clone(),
            created_at: stamp.clone(),
            updated_at: stamp,
        },
    )
}

/// Begins the creation of a task as of the current time.
pub fn create_task(task: &NewTask) -> (step: Result<Task, TextReply>)
    ensures
        exists|stamp: Seq<char>| #[trigger] creation_start(task, stamp) == insertion_view(step),
        step is Err <==> blank(task.title@),
{
    let stamp = utc_now_text();
    let step = create_task_at(task, stamp);
    assert(creation_start(task, stamp@) == insertion_view(step));
    step
}

/// Ends the creation of a task once the store has answered the insertion.
pub fn create_task_inserted(task: Task, inserted: Inserted) -> (reply: Reply<TaskResponse>)
    ensures
        task_reply_view(reply) == creation_inserted(task@, inserted),
{
    match inserted {
        Inserted::Key(key) => Reply::Json(
            TaskResponse {
                id: Some(key),
                title: task.title,
                description: task.description,
                status: task.status,
                user_id: task.user_id,
                created_at: task.created_at,
                updated_at: task.updated_at,
            },
        ),
        Inserted::NoKey => Reply::Text(
            TextReply::message(StatusCode::InternalServerError, "Failed to get inserted ID"),
        ),
        Inserted::Failed(why) => Reply::Text(
            TextReply::failure(
                StatusCode::InternalServerError,
                "Error inserting task: ",
                why.as_str(),
            ),
        ),
    }
}

/// The listing of tasks, given what the store found: every task as it is
/// stored, in the order of the store.
pub open spec fn tasks_listed(fetched: Fetched<Task>) -> Result<Seq<TaskView>, TextReplyView> {
    match fetched {
        Fetched::Rows(tasks) => Ok(task_views(tasks@)),
        Fetched::QueryFailed(why) => Err(
            text_reply(StatusCode::InternalServerError, "Database error: "@ + why@),
        ),
        Fetched::ReadFailed(why) => Err(
            text_reply(StatusCode::InternalServerError, "Error reading tasks: "@ + why@),
        ),
    }
}

/// Lists the tasks that the store found for a user.
pub fn get_tasks(fetched: Fetched<Task>) -> (reply: Reply<Vec<TaskResponse>>)
    ensures
        tasks_reply_view(reply) == tasks_listed(fetched),
{
    match fetched {
        Fetched::Rows(tasks) => {
            let mut shown: Vec<TaskResponse> = Vec::new();
            let mut i: usize = 0;
            while i < tasks.len()
                invariant
                    i <= tasks.len(),
                    shown.len() == i,
                    forall|j: int| 0 <= j < i ==> shown[j]@ == tasks[j]@,
                decreases tasks.len() - i,
            {
                shown.push(tasks[i].response());
                i += 1;
            }
            assert(shown_views(shown@) =~= task_views(tasks@));
            Reply::Json(shown)
        },
        Fetched::QueryFailed(why) => Reply::Text(
            TextReply::failure(StatusCode::InternalServerError, "Database error: ", why.as_str()),
        ),
        Fetched::ReadFailed(why) => Reply::Text(
            TextReply::failure(
                StatusCode::InternalServerError,
                "Error reading tasks: ",
                why.as_str(),
            ),
        ),
    }
}

/// The task of one user that a request is about.
#[derive(Debug, PartialEq, Eq)]
pub struct TaskKey {
    pub task_id: String,
    pub user_id: String,
}

/// What a `TaskKey` holds.
pub struct TaskKeyView {
    pub task_id: Seq<char>,
    pub user_id: Seq<char>,
}

impl View for TaskKey {
    type V = TaskKeyView;

    open spec fn view(&self) -> TaskKeyView {
        TaskKeyView { task_id: self.task_id@, user_id: self.user_id@ }
    }
}

/// The task that a request names, if the name can be a storage key.
pub open spec fn task_named(user_id: Seq<char>, task_id: Seq<char>) -> Result<
    TaskKeyView,
    TextReplyView,
> {
    if is_object_id(task_id) {
        Ok(TaskKeyView { task_id, user_id })
    } else {
        Err(text_reply(StatusCode::BadRequest, "Invalid task ID"@))
    }
}

/// What a step that names one task holds.
pub open spec fn key_view(step: Result<TaskKey, TextReply>) -> Result<TaskKeyView, TextReplyView> {
    match step {
        Ok(key) => Ok(key@),
        Err(reply) => Err(reply@),
    }
}

/// Names the task of a request, or turns the request away.
pub fn task_key(user_id: &str, task_id: &str) -> (step: Result<TaskKey, TextReply>)
    ensures
        key_view(step) == task_named(user_id@, task_id@),
{
    if parses_as_object_id(task_id) {
        Ok(TaskKey { task_id: task_id.to_owned(), user_id: user_id.to_owned() })
    } else {
        Err(TextReply::message(StatusCode::BadRequest, "Invalid task ID"))
    }
}

/// Begins the fetch of one task: the store is asked for the task of that
/// user under that key.
pub fn get_task(user_id: &str, task_id: &str) -> (step: Result<TaskKey, TextReply>)
    ensures
        key_view(step) == task_named(user_id@, task_id@),
{
    task_key(user_id, task_id)
}

/// The end of a fetch, given what the store found.
pub open spec fn task_found(lookup: Lookup<Task>) -> Result<TaskView, TextReplyView> {
    match lookup {
        Lookup::Found(task) => Ok(task@),
        Lookup::Missing => Err(text_reply(StatusCode::NotFound, "Task not found"@)),
        Lookup::Failed(why) => Err(
            text_reply(StatusCode::InternalServerError, "Database error: "@ + why@),
        ),
    }
}

/// Ends the fetch of one task once the store has answered.
pub fn get_task_found(lookup: Lookup<Task>) -> (reply: Reply<TaskResponse>)
    ensures
        task_reply_view(reply) == task_found(lookup),
{
    match lookup {
        Lookup::Found(task) => Reply::Json(task.response()),
        Lookup::Missing => Reply::Text(TextReply::message(StatusCode::NotFound, "Task not found")),
        Lookup::Failed(why) => Reply::Text(
            TextReply::failure(StatusCode::InternalServerError, "Database error: ", why.as_str()),
        ),
    }
}

/// The fields that an update sets on a task: the instant of the change
/// always, each other field only if the request holds it.
#[derive(Debug, PartialEq, Eq)]
pub struct TaskChanges {
    pub updated_at: String,
    pub title: Option<String>,
    pub description: Option<String>,
    /// The name of the new status.
    pub status: Option<String>,
}

/// What a `TaskChanges` holds.
pub struct TaskChangesView {
    pub updated_at: Seq<char>,
    pub title: Option<Seq<char>>,
    pub description: Option<Seq<char>>,
    pub status: Option<Seq<char>>,
}

impl View for TaskChanges {
    type V = TaskChangesView;

    open spec fn view(&self) -> TaskChangesView {
        TaskChangesView {
            updated_at: self.updated_at@,
            title: opt_view(self.title),
            description: opt_view(self.description),
            status: opt_view(self.status),
        }
    }
}

/// An update that is ready for the store.
#[derive(Debug, PartialEq, Eq)]
pub struct TaskUpdate {
    pub key: TaskKey,
    pub changes: TaskChanges,
}

/// The changes that a request asks for, stamped with `stamp`.
pub open spec fn changes_of(update: &UpdateTask, stamp: Seq<char>) -> TaskChangesView {
    TaskChangesView {
        updated_at: stamp,
        title: opt_view(update.title),
        description: opt_view(update.description),
        status: match update.status {
            Some(s) => Some(s.name()),
            None => None,
        },
    }
}

/// The first step of an update.
pub open spec fn update_start(
    user_id: Seq<char>,
    task_id: Seq<char>,
    update: &UpdateTask,
    stamp: Seq<char>,
) -> Result<(TaskKeyView, TaskChangesView), TextReplyView> {
    match task_named(user_id, task_id) {
        Ok(key) => Ok((key, changes_of(update, stamp))),
        Err(reply) => Err(reply),
    }
}

/// What a step that asks for an update holds.
pub open spec fn update_view(step: Result<TaskUpdate, TextReply>) -> Result<
    (TaskKeyView, TaskChangesView),
    TextReplyView,
> {
    match step {
        Ok(update) => Ok((update.key@, update.changes@)),
        Err(reply) => Err(reply@),
    }
}

/// Begins the update of a task, with `stamp` as the text of the current
/// instant.
pub fn update_task_at(user_id: &str, task_id: &str, update: &UpdateTask, stamp: String) -> (step:
    Result<TaskUpdate, TextReply>)
    ensures
        update_view(step) == update_start(user_id@, task_id@, update, stamp@),
{
    let key = match task_key(user_id, task_id) {
        Ok(key) => key,
        Err(reply) => { return Err(reply); },
    };
    let status = match update.status {
        Some(s) => Some(s.as_str().to_owned()),
        None => None,
    };
    Ok(
        TaskUpdate {
            key,
            changes: TaskChanges {
                updated_at: stamp,
                title: clone_opt(&update.title),
                description: clone_opt(&update.description),
                status,
            },
        },
    )
}

/// Begins the update of a task as of the current time.
pub fn update_task(user_id: &str, task_id: &str, update: &UpdateTask) -> (step: Result<
    TaskUpdate,
    TextReply,
>)
    ensures
        exists|stamp: Seq<char>| #[trigger]
            update_start(user_id@, task_id@, update, stamp) == update_view(step),
        step is Err <==> !is_object_id(task_id@),
{
    let stamp = utc_now_rfc3339();
    let step = update_task_at(user_id, task_id, update, stamp);
    assert(update_start(user_id@, task_id@, update, stamp@) == update_view(step));
    step
}

/// The end of a change, given what the store answered: a change that
/// touched no task found none.
pub open spec fn change_done(changed: Changed, done: Seq<char>, failed: Seq<char>) -> TextReplyView {
    match changed {
        Changed::Count(n) => if n > 0 {
            text_reply(StatusCode::Success, done)
        } else {
            text_reply(StatusCode::NotFound, "Task not found"@)
        },
        Changed::Failed(why) => text_reply(StatusCode::InternalServerError, failed + why@),
    }
}

fn end_change(changed: Changed, done: &str, failed: &str) -> (reply: TextReply)
    ensures
        reply@ == change_done(changed, done@, failed@),
{
    match changed {
        Changed::Count(n) => if n > 0 {
            TextReply::message(StatusCode::Success, done)
        } else {
            TextReply::message(StatusCode::NotFound, "Task not found")
        },
        Changed::Failed(why) => TextReply::failure(
            StatusCode::InternalServerError,
            failed,
            why.as_str(),
        ),
    }
}

/// Ends the update of a task once the store has answered.
pub fn update_task_done(changed: Changed) -> (reply: TextReply)
    ensures
        reply@ == change_done(changed, "Task updated successfully"@, "Error updating task: "@),
{
    end_change(changed, "Task updated successfully", "Error updating task: ")
}

/// Begins the deletion of a task: the store is asked to remove the task of
/// that user under that key.
pub fn delete_task(user_id: &str, task_id: &str) -> (step: Result<TaskKey, TextReply>)
    ensures
        key_view(step) == task_named(user_id@, task_id@),
{
    task_key(user_id, task_id)
}

/// Ends the deletion of a task once the store has answered.
pub fn delete_task_done(changed: Changed) -> (reply: TextReply)
    ensures
        reply@ == change_done(changed, "Task deleted successfully"@, "Error deleting task: "@),
{
    end_change(changed, "Task deleted successfully", "Error deleting task: ")
}

} // verus!
