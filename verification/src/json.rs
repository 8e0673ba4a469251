//! The JSON that the stores write: the tasks file and the request bodies.
//!
//! Objects and arrays are framed here, member by member and without any
//! white space. String literals are written by `serde_json`.

use crate::decimal::{bool_str, bool_text, decimal, decimal_text};
use crate::file_store::FileTask;
use crate::models::{AddTask, AddTaskView};
use vstd::prelude::*;

verus! {

/// The JSON string literal that `serde_json` writes for `text`: the text
/// between double quotes, with its escapes.
pub uninterp spec fn json_string(text: Seq<char>) -> Seq<char>;

/// Calls `serde_json::to_string` on a string slice. The contract names the
/// literal that comes back; it says nothing of what the literal holds.
/// Writing a string slice into memory is not among the ways in which that
/// function is documented to fail.
#[verifier::external_body]
fn string_literal(text: &str) -> (r: String)
    ensures
        r@ == json_string(text@),
{
    serde_json::to_string(text).unwrap_or_default()
}

/// A text that may be absent: its literal, or `null`.
pub open spec fn json_optional(text: Option<Seq<char>>) -> Seq<char> {
    match text {
        Some(t) => json_string(t),
        None => "null"@,
    }
}

/// The object of one task of the file.
pub open spec fn task_object(task: FileTask) -> Seq<char> {
    "{\"id\":"@ + decimal(task.id as nat) + ",\"description\":"@ + json_string(task.description@)
        + ",\"is_completed\":"@ + bool_text(task.is_completed) + "}"@
}

/// The object of a task to create.
pub open spec fn new_task_object(task: AddTaskView) -> Seq<char> {
    "{\"title\":"@ + json_string(task.title) + ",\"description\":"@ + json_optional(
        task.description,
    ) + ",\"is_completed\":"@ + bool_text(task.is_completed) + "}"@
}

/// The object that sets the completion flag.
pub open spec fn completion_object(is_completed: bool) -> Seq<char> {
    "{\"is_completed\":"@ + bool_text(is_completed) + "}"@
}

/// The objects of the first `n` tasks, with a comma between neighbours.
pub open spec fn task_objects(tasks: Seq<FileTask>, n: int) -> Seq<char>
    decreases n,
{
    if n <= 0 {
        Seq::empty()
    } else if n == 1 {
        task_object(tasks[0])
    } else {
        task_objects(tasks, n - 1) + ","@ + task_object(tasks[n - 1])
    }
}

/// The tasks file: the array of the tasks' objects, in order.
pub open spec fn tasks_document(tasks: Seq<FileTask>) -> Seq<char> {
    "["@ + task_objects(tasks, tasks.len() as int) + "]"@
}

/// Writes the object of one task of the file.
pub fn encode_task(task: &FileTask) -> (r: String)
    ensures
        r@ == task_object(*task),
{
    let id = decimal_text(task.id);
    let description = string_literal(task.description.as_str());
    let r = String::from_str("{\"id\":").concat(id.as_str()).concat(",\"description\":").concat(
        description.as_str(),
    ).concat(",\"is_completed\":").concat(bool_str(task.is_completed)).concat("}");
    assert(r@ =~= task_object(*task));
    r
}

/// Writes the tasks file.
pub fn encode_tasks(tasks: &Vec<FileTask>) -> (r: String)
    ensures
        r@ == tasks_document(tasks@),
{
    let mut out = String::from_str("[");
    let mut i: usize = 0;
    while i < tasks.len()
        invariant
            i <= tasks@.len(),
            out@ == "["@ + task_objects(tasks@, i as int),
        decreases tasks@.len() - i,
    {
        if i > 0 {
            out.append(",");
        }
        let one = encode_task(&tasks[i]);
        out.append(one.as_str());
        assert(out@ =~= "["@ + task_objects(tasks@, i + 1));
        i = i + 1;
    }
    out.append("]");
    out
}

/// Writes the object of a task to create.
pub fn encode_new_task(task: &AddTask) -> (r: String)
    ensures
        r@ == new_task_object(task@),
{
    let title = string_literal(task.title.as_str());
    let description = match &task.description {
        Some(text) => string_literal(text.as_str()),
        None => String::from_str("null"),
    };
    let r = String::from_str("{\"title\":").concat(title.as_str()).concat(",\"description\":").concat(
        description.as_str(),
    ).concat(",\"is_completed\":").concat(bool_str(task.is_completed)).concat("}");
    assert(r@ =~= new_task_object(task@));
    r
}

/// Writes the object that sets the completion flag.
pub fn encode_completion(is_completed: bool) -> (r: String)
    ensures
        r@ == completion_object(is_completed),
{
    String::from_str("{\"is_completed\":").concat(bool_str(is_completed)).concat("}")
}

} // verus!
