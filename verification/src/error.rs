//! The failures of the stores.

use crate::decimal::{decimal, decimal_text};
use vstd::prelude::*;

verus! {

/// Why an operation did not yield its result.
#[derive(Debug, Clone, PartialEq, Eq)]
pub enum StoreError {
    /// The creation succeeded by its status, but no row came back.
    NotAdded,
    /// The store holds no task that the listing selects.
    NoTasks,
    /// No task has the id that was asked for.
    TaskNotFound,
    /// No completed task was there to remove.
    NothingToClear,
    /// The store answered with a status outside the 2xx range.
    RequestFailed { status: u16 },
    /// The request got no answer.
    Transport { reason: String },
    /// The answer's body is not a list of tasks.
    Decode,
    /// The tasks file could not be read or written.
    Io { reason: String },
}

impl StoreError {
    /// Whether this error says that valid data was looked for and is not
    /// there, as opposed to a request that failed.
    pub open spec fn spec_is_not_found(&self) -> bool {
        self is NotAdded || self is NoTasks || self is TaskNotFound || self is NothingToClear
    }

    /// Whether this is one of the not-found conditions.
    #[verifier::when_used_as_spec(spec_is_not_found)]
    pub fn is_not_found(&self) -> (r: bool)
        ensures
            r == self.spec_is_not_found(),
    {
        match self {
            StoreError::NotAdded => true,
            StoreError::NoTasks => true,
            StoreError::TaskNotFound => true,
            StoreError::NothingToClear => true,
            _ => false,
        }
    }

    /// The text that reports this error: a fixed sentence for each of the
    /// not-found conditions, the status in decimal for a failed request,
    /// and the reason as it was given for the others.
    pub open spec fn spec_message(&self) -> Seq<char> {
        match *self {
            StoreError::NotAdded => "Task not added"@,
            StoreError::NoTasks => "No tasks found"@,
            StoreError::TaskNotFound => "Task not found"@,
            StoreError::NothingToClear => "No tasks with is_completed status found"@,
            StoreError::RequestFailed { status } => "Request failed: "@ + decimal(status as nat),
            StoreError::Transport { reason } => reason@,
            StoreError::Decode => "Response is not a list of tasks"@,
            StoreError::Io { reason } => reason@,
        }
    }

    /// Writes the text that reports this error.
    pub fn message(&self) -> (r: String)
        ensures
            r@ == self.spec_message(),
    {
        match self {
            StoreError::NotAdded => String::from_str("Task not added"),
            StoreError::NoTasks => String::from_str("No tasks found"),
            StoreError::TaskNotFound => String::from_str("Task not found"),
            StoreError::NothingToClear => String::from_str(
                "No tasks with is_completed status found",
            ),
            StoreError::RequestFailed { status } => {
                let number = decimal_text(*status as u32);
                String::from_str("Request failed: ").concat(number.as_str())
            },
            StoreError::Transport { reason } => reason.clone(),
            StoreError::Decode => String::from_str("Response is not a list of tasks"),
            StoreError::Io { reason } => reason.clone(),
        }
    }
}

} // verus!
