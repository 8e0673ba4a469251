//! What an answer of the remote store means for each operation.
//!
//! The caller sends a request and hands back a [`Reply`]. Every operation
//! tells three failures apart: no answer at all, an answer with a status
//! outside the 2xx range, and an answer in that range that holds no row.

use crate::error::StoreError;
use crate::models::{Commands, Task, TaskView};
use crate::rows::{decode_tasks, json_rows, task_views, tasks_in, FieldView};
use vstd::prelude::*;

verus! {

/// What came back for a request.
#[derive(Debug, Clone, PartialEq, Eq)]
pub enum Reply {
    /// Nothing: the request failed on the way.
    Unreachable { reason: String },
    /// A response: its status and the text of its body.
    Answered { status: u16, body: String },
}

/// A status in the 2xx range.
pub open spec fn spec_is_success(status: u16) -> bool {
    200 <= status < 300
}

/// Whether a status reports success.
#[verifier::when_used_as_spec(spec_is_success)]
pub fn is_success(status: u16) -> (r: bool)
    ensures
        r == spec_is_success(status),
{
    200 <= status && status < 300
}

/// The rows of a reply, or the failure that it stands for. A status outside
/// the 2xx range decides, whatever the body holds.
pub open spec fn received(reply: Reply) -> Result<Seq<TaskView>, StoreError> {
    match reply {
        Reply::Unreachable { reason } => Err(StoreError::Transport { reason }),
        Reply::Answered { status, body } => if !spec_is_success(status) {
            Err(StoreError::RequestFailed { status })
        } else {
            match tasks_in(body@) {
                Some(tasks) => Ok(tasks),
                None => Err(StoreError::Decode),
            }
        },
    }
}

/// The first of `rows`, or `absent` where there is none.
pub open spec fn first_or<T>(rows: Seq<T>, absent: StoreError) -> Result<T, StoreError> {
    if rows.len() == 0 {
        Err(absent)
    } else {
        Ok(rows[0])
    }
}

/// The affected row of a write: the first row of the reply; `absent` where
/// the reply holds none; the reply's own failure otherwise.
pub open spec fn affected(reply: Reply, absent: StoreError) -> Result<TaskView, StoreError> {
    match received(reply) {
        Err(e) => Err(e),
        Ok(tasks) => first_or(tasks, absent),
    }
}

/// The result of a listing: the rows in the order of the reply, and
/// `NoTasks` where there are none.
pub open spec fn listed(reply: Reply) -> Result<Seq<TaskView>, StoreError> {
    match received(reply) {
        Err(e) => Err(e),
        Ok(tasks) => if tasks.len() == 0 {
            Err(StoreError::NoTasks)
        } else {
            Ok(tasks)
        },
    }
}

/// The result of clearing: how many rows the reply holds, and
/// `NothingToClear` where it holds none.
pub open spec fn cleared(reply: Reply) -> Result<nat, StoreError> {
    match received(reply) {
        Err(e) => Err(e),
        Ok(tasks) => if tasks.len() == 0 {
            Err(StoreError::NothingToClear)
        } else {
            Ok(tasks.len())
        },
    }
}

/// A task that is the one expected, or the failure that is.
pub open spec fn is_task(r: Result<Task, StoreError>, expected: Result<TaskView, StoreError>) -> bool {
    match expected {
        Ok(task) => r matches Ok(t) && t@ == task,
        Err(e) => r == Err::<Task, StoreError>(e),
    }
}

/// Tasks that are the ones expected, in order, or the failure that is.
pub open spec fn are_tasks(
    r: Result<Vec<Task>, StoreError>,
    expected: Result<Seq<TaskView>, StoreError>,
) -> bool {
    match expected {
        Ok(tasks) => r matches Ok(v) && task_views(v@) == tasks && v@.len() == tasks.len(),
        Err(e) => r == Err::<Vec<Task>, StoreError>(e),
    }
}

/// A count that is the one expected, or the failure that is.
pub open spec fn is_count(r: Result<usize, StoreError>, expected: Result<nat, StoreError>) -> bool {
    match expected {
        Ok(count) => r matches Ok(n) && n == count,
        Err(e) => r == Err::<usize, StoreError>(e),
    }
}

/// Reads a reply: its rows, or the failure that it stands for. The body is
/// read only where the status is in the 2xx range.
pub fn rows_of(reply: Reply) -> (r: Result<Vec<Task>, StoreError>)
    ensures
        are_tasks(r, received(reply)),
{
    match reply {
        Reply::Unreachable { reason } => Err(StoreError::Transport { reason }),
        Reply::Answered { status, body } => {
            if !is_success(status) {
                Err(StoreError::RequestFailed { status })
            } else {
                match decode_tasks(body.as_str()) {
                    Some(tasks) => Ok(tasks),
                    None => Err(StoreError::Decode),
                }
            }
        },
    }
}

/// Takes the first of `rows`, or fails with `absent`.
pub fn first_row(rows: Vec<Task>, absent: StoreError) -> (r: Result<Task, StoreError>)
    ensures
        r == first_or(rows@, absent),
{
    let mut rows = rows;
    if rows.len() == 0 {
        Err(absent)
    } else {
        Ok(rows.swap_remove(0))
    }
}

/// The created task, from the reply to a creation request.
pub fn add_task(reply: Reply) -> (r: Result<Task, StoreError>)
    ensures
        is_task(r, affected(reply, StoreError::NotAdded)),
{
    match rows_of(reply) {
        Err(e) => Err(e),
        Ok(tasks) => first_row(tasks, StoreError::NotAdded),
    }
}

/// The tasks, from the reply to a read request.
pub fn list_tasks(reply: Reply) -> (r: Result<Vec<Task>, StoreError>)
    ensures
        are_tasks(r, listed(reply)),
{
    match rows_of(reply) {
        Err(e) => Err(e),
        Ok(tasks) => {
            if tasks.len() == 0 {
                Err(StoreError::NoTasks)
            } else {
                Ok(tasks)
            }
        },
    }
}

/// The completed task, from the reply to a partial update.
pub fn complete_task(reply: Reply) -> (r: Result<Task, StoreError>)
    ensures
        is_task(r, affected(reply, StoreError::TaskNotFound)),
{
    match rows_of(reply) {
        Err(e) => Err(e),
        Ok(tasks) => first_row(tasks, StoreError::TaskNotFound),
    }
}

/// The deleted task, from the reply to the removal of one row.
pub fn delete_task(reply: Reply) -> (r: Result<Task, StoreError>)
    ensures
        is_task(r, affected(reply, StoreError::TaskNotFound)),
{
    match rows_of(reply) {
        Err(e) => Err(e),
        Ok(tasks) => first_row(tasks, StoreError::TaskNotFound),
    }
}

/// The number of removed tasks, from the reply to the removal of the
/// completed rows.
pub fn clear_tasks(reply: Reply) -> (r: Result<usize, StoreError>)
    ensures
        is_count(r, cleared(reply)),
{
    match rows_of(reply) {
        Err(e) => Err(e),
        Ok(tasks) => {
            if tasks.len() == 0 {
                Err(StoreError::NothingToClear)
            } else {
                Ok(tasks.len())
            }
        },
    }
}

/// What a command has brought about in the remote store.
#[derive(Debug, Clone, PartialEq, Eq)]
pub enum Outcome {
    Added(Task),
    Listed(Vec<Task>),
    Completed(Task),
    Deleted(Task),
    /// So many completed tasks were removed.
    Cleared(usize),
}

/// What an [`Outcome`] is.
pub enum OutcomeView {
    Added(TaskView),
    Listed(Seq<TaskView>),
    Completed(TaskView),
    Deleted(TaskView),
    Cleared(nat),
}

impl View for Outcome {
    type V = OutcomeView;

    open spec fn view(&self) -> OutcomeView {
        match *self {
            Outcome::Added(task) => OutcomeView::Added(task@),
            Outcome::Listed(tasks) => OutcomeView::Listed(task_views(tasks@)),
            Outcome::Completed(task) => OutcomeView::Completed(task@),
            Outcome::Deleted(task) => OutcomeView::Deleted(task@),
            Outcome::Cleared(count) => OutcomeView::Cleared(count as nat),
        }
    }
}

/// What the reply to the request of `command` means.
pub open spec fn concluded(command: Commands, reply: Reply) -> Result<OutcomeView, StoreError> {
    match command {
        Commands::Add { .. } => match affected(reply, StoreError::NotAdded) {
            Ok(task) => Ok(OutcomeView::Added(task)),
            Err(e) => Err(e),
        },
        Commands::List => match listed(reply) {
            Ok(tasks) => Ok(OutcomeView::Listed(tasks)),
            Err(e) => Err(e),
        },
        Commands::Complete { .. } => match affected(reply, StoreError::TaskNotFound) {
            Ok(task) => Ok(OutcomeView::Completed(task)),
            Err(e) => Err(e),
        },
        Commands::Delete { .. } => match affected(reply, StoreError::TaskNotFound) {
            Ok(task) => Ok(OutcomeView::Deleted(task)),
            Err(e) => Err(e),
        },
        Commands::Clear => match cleared(reply) {
            Ok(count) => Ok(OutcomeView::Cleared(count)),
            Err(e) => Err(e),
        },
    }
}

/// Reads the reply to the request that was built for `command`.
pub fn conclude(command: &Commands, reply: Reply) -> (r: Result<Outcome, StoreError>)
    ensures
        match concluded(*command, reply) {
            Ok(outcome) => r matches Ok(o) && o@ == outcome,
            Err(e) => r == Err::<Outcome, StoreError>(e),
        },
{
    match command {
        Commands::Add { .. } => match add_task(reply) {
            Ok(task) => Ok(Outcome::Added(task)),
            Err(e) => Err(e),
        },
        Commands::List => match list_tasks(reply) {
            Ok(tasks) => Ok(Outcome::Listed(tasks)),
            Err(e) => Err(e),
        },
        Commands::Complete { .. } => match complete_task(reply) {
            Ok(task) => Ok(Outcome::Completed(task)),
            Err(e) => Err(e),
        },
        Commands::Delete { .. } => match delete_task(reply) {
            Ok(task) => Ok(Outcome::Deleted(task)),
            Err(e) => Err(e),
        },
        Commands::Clear => match clear_tasks(reply) {
            Ok(count) => Ok(Outcome::Cleared(count)),
            Err(e) => Err(e),
        },
    }
}

/// An empty answer is not a failed request. Whatever the operation, a reply
/// in the 2xx range whose body is an empty array yields a not-found
/// condition, and a reply outside that range yields `RequestFailed` with
/// the reply's status, whatever its body holds.
pub proof fn lemma_empty_differs_from_refused(
    ok_status: u16,
    empty: String,
    bad_status: u16,
    body: String,
)
    requires
        spec_is_success(ok_status),
        !spec_is_success(bad_status),
    ensures
        json_rows(empty@) == Some(Seq::<Seq<(Seq<char>, FieldView)>>::empty()) ==> {
            &&& listed(Reply::Answered { status: ok_status, body: empty }) == Err::<
                Seq<TaskView>,
                StoreError,
            >(StoreError::NoTasks)
            &&& cleared(Reply::Answered { status: ok_status, body: empty }) == Err::<
                nat,
                StoreError,
            >(StoreError::NothingToClear)
            &&& forall|absent: StoreError|
                #[trigger] affected(Reply::Answered { status: ok_status, body: empty }, absent)
                    == Err::<TaskView, StoreError>(absent)
        },
        listed(Reply::Answered { status: bad_status, body }) == Err::<Seq<TaskView>, StoreError>(
            StoreError::RequestFailed { status: bad_status },
        ),
        cleared(Reply::Answered { status: bad_status, body }) == Err::<nat, StoreError>(
            StoreError::RequestFailed { status: bad_status },
        ),
        forall|absent: StoreError|
            #[trigger] affected(Reply::Answered { status: bad_status, body }, absent) == Err::<
                TaskView,
                StoreError,
            >(StoreError::RequestFailed { status: bad_status }),
        !(StoreError::RequestFailed { status: bad_status }).spec_is_not_found(),
{
}

} // verus!
