//! The errors of the task operations.

use vstd::prelude::*;
use vstd::string::StringExecFns;
use crate::model::Failure;

verus! {

/// Why an operation on a task collection was refused. The collection is
/// left as it was.
#[derive(Clone, Debug, PartialEq, Eq)]
pub enum TaskError {
    /// A task is running already; this is its name.
    TaskAlreadyRunning(String),
    /// No task is running.
    TaskNotRunning,
    /// There is no stopped task.
    NoTasksFound,
    /// No task has this query in its name.
    TaskNotFound(String),
    /// A stopped task has exactly this name.
    TaskAlreadyExists(String),
    /// More than one task has the query in its name.
    MultipleTasksFound,
    /// The stop time lies before the start of the running task's open
    /// entry, or after the present.
    InvalidStopTime,
    /// The start time lies before the task's stop time.
    InvalidStartTime,
}

/// The result of a task operation.
pub type TaskResult<T> = Result<T, TaskError>;

impl View for TaskError {
    type V = Failure;

    open spec fn view(&self) -> Failure {
        match self {
            TaskError::TaskAlreadyRunning(name) => Failure::TaskAlreadyRunning(name@),
            TaskError::TaskNotRunning => Failure::TaskNotRunning,
            TaskError::NoTasksFound => Failure::NoTasksFound,
            TaskError::TaskNotFound(name) => Failure::TaskNotFound(name@),
            TaskError::TaskAlreadyExists(name) => Failure::TaskAlreadyExists(name@),
            TaskError::MultipleTasksFound => Failure::MultipleTasksFound,
            TaskError::InvalidStopTime => Failure::InvalidStopTime,
            TaskError::InvalidStartTime => Failure::InvalidStartTime,
        }
    }
}

/// The text that begins with `head`, goes on with `name` and ends with `tail`.
fn around(head: &str, name: &String, tail: &str) -> (text: String)
    ensures
        text@ == head@ + name@ + tail@,
{
    let mut text = String::from_str(head);
    text.append(name.as_str());
    text.append(tail);
    text
}

impl TaskError {
    /// The error in words, on one line.
    pub fn message(&self) -> (text: String)
        ensures
            text@ == self@.message_text(),
    {
        match self {
            TaskError::TaskAlreadyRunning(name) => around("Task '", name, "' is already running"),
            TaskError::TaskNotRunning => String::from_str("No task is currently running"),
            TaskError::NoTasksFound => String::from_str("No tasks found"),
            TaskError::TaskNotFound(name) => around("Task '", name, "' not found"),
            TaskError::TaskAlreadyExists(name) => around("Task '", name, "' already exists"),
            TaskError::MultipleTasksFound => String::from_str("Task name is ambiguous"),
            TaskError::InvalidStopTime => String::from_str(
                "Invalid stop time. Must not be in the future or before the task's last start time",
            ),
            TaskError::InvalidStartTime => String::from_str(
                "Invalid start time. Must not be after the task's stop time",
            ),
        }
    }
}

} // verus!
