//! Reading JSON: a text is parsed by `serde_json` into rows of named
//! members, and the rows are read as tasks here.

use crate::file_store::{FileTask, FileTaskView};
use crate::models::{Task, TaskView};
use vstd::prelude::*;

verus! {

/// What a member of a row holds. Of a number only its value as an unsigned
/// integer is kept, where it has one; arrays and objects are not looked
/// into.
#[derive(Debug, Clone, PartialEq, Eq)]
pub enum Field {
    Null,
    Bool(bool),
    Number(Option<u64>),
    Text(String),
    Array,
    Object,
}

/// What a [`Field`] is.
pub enum FieldView {
    Null,
    Bool(bool),
    Number(Option<u64>),
    Text(Seq<char>),
    Array,
    Object,
}

impl View for Field {
    type V = FieldView;

    open spec fn view(&self) -> FieldView {
        match *self {
            Field::Null => FieldView::Null,
            Field::Bool(b) => FieldView::Bool(b),
            Field::Number(n) => FieldView::Number(n),
            Field::Text(s) => FieldView::Text(s@),
            Field::Array => FieldView::Array,
            Field::Object => FieldView::Object,
        }
    }
}

/// One member of a row: a name and what it holds.
#[derive(Debug, Clone, PartialEq, Eq)]
pub struct Member {
    pub name: String,
    pub value: Field,
}

impl View for Member {
    type V = (Seq<char>, FieldView);

    open spec fn view(&self) -> (Seq<char>, FieldView) {
        (self.name@, self.value@)
    }
}

/// A row as a sequence of names and values.
pub open spec fn row_view(row: Seq<Member>) -> Seq<(Seq<char>, FieldView)> {
    row.map_values(|m: Member| m@)
}

/// Rows as sequences of names and values.
pub open spec fn rows_view(rows: Seq<Vec<Member>>) -> Seq<Seq<(Seq<char>, FieldView)>> {
    rows.map_values(|row: Vec<Member>| row_view(row@))
}

/// The rows that `serde_json` reads from `text`, where `text` is a JSON
/// array of objects, and nothing where it is not.
pub uninterp spec fn json_rows(text: Seq<char>) -> Option<Seq<Seq<(Seq<char>, FieldView)>>>;

/// Calls `serde_json::from_str` for a list of `serde_json::Map`s from names
/// to `serde_json::Value`s, and hands each map out as its members, a number
/// by `Number::as_u64`. The contract names what comes back; it does not say
/// which texts are read, nor in what order the members of a row stand.
#[verifier::external_body]
fn parse_rows(text: &str) -> (r: Option<Vec<Vec<Member>>>)
    ensures
        match r {
            Some(rows) => json_rows(text@) == Some(rows_view(rows@)),
            None => json_rows(text@) is None,
        },
{
    let rows = serde_json::from_str::<Vec<serde_json::Map<String, serde_json::Value>>>(text).ok()?;
    Some(rows.into_iter().map(|row| row.into_iter().map(|(name, value)| Member {
        name,
        value: match value {
            serde_json::Value::Null => Field::Null,
            serde_json::Value::Bool(b) => Field::Bool(b),
            serde_json::Value::Number(n) => Field::Number(n.as_u64()),
            serde_json::Value::String(s) => Field::Text(s),
            serde_json::Value::Array(_) => Field::Array,
            serde_json::Value::Object(_) => Field::Object,
        },
    }).collect()).collect())
}

/// The value of the first member named `name` among those from `from` on.
pub open spec fn member_from(row: Seq<(Seq<char>, FieldView)>, name: Seq<char>, from: int) -> Option<
    FieldView,
>
    decreases row.len() - from,
{
    if from < 0 || from >= row.len() {
        None
    } else if row[from].0 == name {
        Some(row[from].1)
    } else {
        member_from(row, name, from + 1)
    }
}

/// The value of the first member named `name`.
pub open spec fn member(row: Seq<(Seq<char>, FieldView)>, name: Seq<char>) -> Option<FieldView> {
    member_from(row, name, 0)
}

/// The id that a member holds: an unsigned integer that fits 32 bits.
pub open spec fn id_of(field: Option<FieldView>) -> Option<u32> {
    match field {
        Some(FieldView::Number(Some(n))) => if n <= u32::MAX {
            Some(n as u32)
        } else {
            None
        },
        _ => None,
    }
}

/// The text that a member holds.
pub open spec fn text_of(field: Option<FieldView>) -> Option<Seq<char>> {
    match field {
        Some(FieldView::Text(s)) => Some(s),
        _ => None,
    }
}

/// The truth value that a member holds.
pub open spec fn flag_of(field: Option<FieldView>) -> Option<bool> {
    match field {
        Some(FieldView::Bool(b)) => Some(b),
        _ => None,
    }
}

/// An optional text: absent where the member is missing or null, and not
/// readable where it holds anything but a text.
pub open spec fn optional_text_of(field: Option<FieldView>) -> Option<Option<Seq<char>>> {
    match field {
        None => Some(None),
        Some(FieldView::Null) => Some(None),
        Some(FieldView::Text(s)) => Some(Some(s)),
        _ => None,
    }
}

/// The task of the remote store that a row stands for: `id`, `title` and
/// `is_completed` are required, `description` may be missing or null, and
/// other members are passed over.
pub open spec fn task_of(row: Seq<(Seq<char>, FieldView)>) -> Option<TaskView> {
    let id = id_of(member(row, "id"@));
    let title = text_of(member(row, "title"@));
    let description = optional_text_of(member(row, "description"@));
    let is_completed = flag_of(member(row, "is_completed"@));
    if id is Some && title is Some && description is Some && is_completed is Some {
        Some(
            TaskView {
                id: id->0,
                title: title->0,
                description: description->0,
                is_completed: is_completed->0,
            },
        )
    } else {
        None
    }
}

/// The task of the file that a row stands for: `id`, `description` and
/// `is_completed` are required, and other members are passed over.
pub open spec fn file_task_of(row: Seq<(Seq<char>, FieldView)>) -> Option<FileTaskView> {
    let id = id_of(member(row, "id"@));
    let description = text_of(member(row, "description"@));
    let is_completed = flag_of(member(row, "is_completed"@));
    if id is Some && description is Some && is_completed is Some {
        Some(FileTaskView { id: id->0, description: description->0, is_completed: is_completed->0 })
    } else {
        None
    }
}

/// The tasks that rows stand for, in order: all of them, or nothing where
/// one row is no task.
pub open spec fn tasks_of(rows: Seq<Seq<(Seq<char>, FieldView)>>) -> Option<Seq<TaskView>> {
    if forall|i: int| 0 <= i < rows.len() ==> (#[trigger] task_of(rows[i])) is Some {
        Some(Seq::new(rows.len(), |i: int| task_of(rows[i])->0))
    } else {
        None
    }
}

/// The tasks of the file that rows stand for, in order: all of them, or
/// nothing where one row is no task.
pub open spec fn file_tasks_of(rows: Seq<Seq<(Seq<char>, FieldView)>>) -> Option<
    Seq<FileTaskView>,
> {
    if forall|i: int| 0 <= i < rows.len() ==> (#[trigger] file_task_of(rows[i])) is Some {
        Some(Seq::new(rows.len(), |i: int| file_task_of(rows[i])->0))
    } else {
        None
    }
}

/// The row has a member named `name`, and each of that name holds `value`.
pub open spec fn holds(row: Seq<(Seq<char>, FieldView)>, name: Seq<char>, value: FieldView) -> bool {
    &&& exists|j: int| 0 <= j < row.len() && (#[trigger] row[j]).0 == name
    &&& forall|j: int| 0 <= j < row.len() && (#[trigger] row[j]).0 == name ==> row[j].1 == value
}

/// The row has no member named `name`.
pub open spec fn lacks(row: Seq<(Seq<char>, FieldView)>, name: Seq<char>) -> bool {
    forall|j: int| 0 <= j < row.len() ==> (#[trigger] row[j]).0 != name
}

/// Looking a name up from any place on finds the value that the members of
/// that name agree on, if one of them stands at or after that place.
pub proof fn lemma_member_from(
    row: Seq<(Seq<char>, FieldView)>,
    name: Seq<char>,
    value: FieldView,
    from: int,
)
    requires
        0 <= from <= row.len(),
        forall|j: int| from <= j < row.len() && (#[trigger] row[j]).0 == name ==> row[j].1 == value,
    ensures
        (exists|j: int| from <= j < row.len() && (#[trigger] row[j]).0 == name) ==> member_from(
            row,
            name,
            from,
        ) == Some(value),
        (forall|j: int| from <= j < row.len() ==> (#[trigger] row[j]).0 != name) ==> member_from(
            row,
            name,
            from,
        ) is None,
    decreases row.len() - from,
{
    if from < row.len() {
        lemma_member_from(row, name, value, from + 1);
        if row[from].0 != name {
            if exists|j: int| from <= j < row.len() && (#[trigger] row[j]).0 == name {
                let j = choose|j: int| from <= j < row.len() && (#[trigger] row[j]).0 == name;
                assert(from + 1 <= j < row.len() && row[j].0 == name);
            }
        }
    }
}

/// A row that holds the three members of a task of the file, in any order
/// and among any others, reads as that task.
pub proof fn lemma_file_row_reads_back(row: Seq<(Seq<char>, FieldView)>, task: FileTaskView)
    requires
        holds(row, "id"@, FieldView::Number(Some(task.id as u64))),
        holds(row, "description"@, FieldView::Text(task.description)),
        holds(row, "is_completed"@, FieldView::Bool(task.is_completed)),
    ensures
        file_task_of(row) == Some(task),
{
    lemma_member_from(row, "id"@, FieldView::Number(Some(task.id as u64)), 0);
    lemma_member_from(row, "description"@, FieldView::Text(task.description), 0);
    lemma_member_from(row, "is_completed"@, FieldView::Bool(task.is_completed), 0);
}

/// A row that holds the members of a task of the remote store, in any order
/// and among any others, reads as that task. The description of a task
/// without one is null or left out.
pub proof fn lemma_task_row_reads_back(row: Seq<(Seq<char>, FieldView)>, task: TaskView)
    requires
        holds(row, "id"@, FieldView::Number(Some(task.id as u64))),
        holds(row, "title"@, FieldView::Text(task.title)),
        holds(row, "is_completed"@, FieldView::Bool(task.is_completed)),
        match task.description {
            Some(text) => holds(row, "description"@, FieldView::Text(text)),
            None => holds(row, "description"@, FieldView::Null) || lacks(row, "description"@),
        },
    ensures
        task_of(row) == Some(task),
{
    lemma_member_from(row, "id"@, FieldView::Number(Some(task.id as u64)), 0);
    lemma_member_from(row, "title"@, FieldView::Text(task.title), 0);
    lemma_member_from(row, "is_completed"@, FieldView::Bool(task.is_completed), 0);
    match task.description {
        Some(text) => {
            lemma_member_from(row, "description"@, FieldView::Text(text), 0);
        },
        None => {
            lemma_member_from(row, "description"@, FieldView::Null, 0);
        },
    }
}

/// The tasks of the remote store that a text holds.
pub open spec fn tasks_in(text: Seq<char>) -> Option<Seq<TaskView>> {
    match json_rows(text) {
        Some(rows) => tasks_of(rows),
        None => None,
    }
}

/// The tasks of the file that a text holds.
pub open spec fn file_tasks_in(text: Seq<char>) -> Option<Seq<FileTaskView>> {
    match json_rows(text) {
        Some(rows) => file_tasks_of(rows),
        None => None,
    }
}

/// The views of tasks.
pub open spec fn task_views(tasks: Seq<Task>) -> Seq<TaskView> {
    tasks.map_values(|t: Task| t@)
}

/// The views of tasks of the file.
pub open spec fn file_task_views(tasks: Seq<FileTask>) -> Seq<FileTaskView> {
    tasks.map_values(|t: FileTask| t@)
}

/// Looks up the first member named `name`.
pub fn find<'a>(row: &'a Vec<Member>, name: &str) -> (r: Option<&'a Field>)
    ensures
        match member(row_view(row@), name@) {
            Some(value) => r matches Some(field) && field@ == value,
            None => r is None,
        },
{
    let wanted = String::from_str(name);
    let mut i: usize = 0;
    while i < row.len()
        invariant
            i <= row@.len(),
            wanted@ == name@,
            member(row_view(row@), name@) == member_from(row_view(row@), name@, i as int),
        decreases row@.len() - i,
    {
        if row[i].name == wanted {
            return Some(&row[i].value);
        }
        i = i + 1;
    }
    None
}

/// Reads a member as an id.
pub fn read_id(field: Option<&Field>) -> (r: Option<u32>)
    ensures
        r == id_of(
            match field {
                Some(f) => Some(f@),
                None => None,
            },
        ),
{
    match field {
        Some(Field::Number(Some(n))) => {
            if *n <= u32::MAX as u64 {
                Some(*n as u32)
            } else {
                None
            }
        },
        _ => None,
    }
}

/// Reads a member as a text.
pub fn read_text(field: Option<&Field>) -> (r: Option<String>)
    ensures
        match text_of(
            match field {
                Some(f) => Some(f@),
                None => None,
            },
        ) {
            Some(text) => r matches Some(s) && s@ == text,
            None => r is None,
        },
{
    match field {
        Some(Field::Text(s)) => Some(s.clone()),
        _ => None,
    }
}

/// Reads a member as a truth value.
pub fn read_flag(field: Option<&Field>) -> (r: Option<bool>)
    ensures
        r == flag_of(
            match field {
                Some(f) => Some(f@),
                None => None,
            },
        ),
{
    match field {
        Some(Field::Bool(b)) => Some(*b),
        _ => None,
    }
}

/// Reads a row as a task of the remote store.
pub fn read_task(row: &Vec<Member>) -> (r: Option<Task>)
    ensures
        match task_of(row_view(row@)) {
            Some(task) => r matches Some(t) && t@ == task,
            None => r is None,
        },
{
    let id = read_id(find(row, "id"));
    let title = read_text(find(row, "title"));
    let is_completed = read_flag(find(row, "is_completed"));
    let description = match find(row, "description") {
        None => Some(None),
        Some(Field::Null) => Some(None),
        Some(Field::Text(s)) => Some(Some(s.clone())),
        _ => None,
    };
    match (id, title, description, is_completed) {
        (Some(id), Some(title), Some(description), Some(is_completed)) => Some(
            Task { id, title, description, is_completed },
        ),
        _ => None,
    }
}

/// Reads a row as a task of the file.
pub fn read_file_task(row: &Vec<Member>) -> (r: Option<FileTask>)
    ensures
        match file_task_of(row_view(row@)) {
            Some(task) => r matches Some(t) && t@ == task,
            None => r is None,
        },
{
    let id = read_id(find(row, "id"));
    let description = read_text(find(row, "description"));
    let is_completed = read_flag(find(row, "is_completed"));
    match (id, description, is_completed) {
        (Some(id), Some(description), Some(is_completed)) => Some(
            FileTask { id, description, is_completed },
        ),
        _ => None,
    }
}

/// Reads rows as tasks of the remote store.
pub fn read_tasks(rows: &Vec<Vec<Member>>) -> (r: Option<Vec<Task>>)
    ensures
        match tasks_of(rows_view(rows@)) {
            Some(tasks) => r matches Some(v) && task_views(v@) == tasks && v@.len() == tasks.len(),
            None => r is None,
        },
{
    let mut out: Vec<Task> = Vec::new();
    let mut i: usize = 0;
    while i < rows.len()
        invariant
            i <= rows@.len(),
            out@.len() == i,
            forall|j: int|
                0 <= j < i ==> (#[trigger] task_of(rows_view(rows@)[j])) == Some(out@[j]@),
        decreases rows@.len() - i,
    {
        assert(rows_view(rows@)[i as int] == row_view(rows@[i as int]@));
        match read_task(&rows[i]) {
            Some(task) => out.push(task),
            None => {
                return None;
            },
        }
        i = i + 1;
    }
    assert(task_views(out@) =~= tasks_of(rows_view(rows@))->0);
    Some(out)
}

/// Reads rows as tasks of the file.
pub fn read_file_tasks(rows: &Vec<Vec<Member>>) -> (r: Option<Vec<FileTask>>)
    ensures
        match file_tasks_of(rows_view(rows@)) {
            Some(tasks) => r matches Some(v) && file_task_views(v@) == tasks && v@.len()
                == tasks.len(),
            None => r is None,
        },
{
    let mut out: Vec<FileTask> = Vec::new();
    let mut i: usize = 0;
    while i < rows.len()
        invariant
            i <= rows@.len(),
            out@.len() == i,
            forall|j: int|
                0 <= j < i ==> (#[trigger] file_task_of(rows_view(rows@)[j])) == Some(out@[j]@),
        decreases rows@.len() - i,
    {
        assert(rows_view(rows@)[i as int] == row_view(rows@[i as int]@));
        match read_file_task(&rows[i]) {
            Some(task) => out.push(task),
            None => {
                return None;
            },
        }
        i = i + 1;
    }
    assert(file_task_views(out@) =~= file_tasks_of(rows_view(rows@))->0);
    Some(out)
}

/// Reads a text as tasks of the remote store.
pub fn decode_tasks(text: &str) -> (r: Option<Vec<Task>>)
    ensures
        match tasks_in(text@) {
            Some(tasks) => r matches Some(v) && task_views(v@) == tasks && v@.len() == tasks.len(),
            None => r is None,
        },
{
    match parse_rows(text) {
        Some(rows) => read_tasks(&rows),
        None => None,
    }
}

/// Reads a text as tasks of the file.
pub fn decode_file_tasks(text: &str) -> (r: Option<Vec<FileTask>>)
    ensures
        match file_tasks_in(text@) {
            Some(tasks) => r matches Some(v) && file_task_views(v@) == tasks && v@.len()
                == tasks.len(),
            None => r is None,
        },
{
    match parse_rows(text) {
        Some(rows) => read_file_tasks(&rows),
        None => None,
    }
}

} // verus!
