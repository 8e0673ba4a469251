//! The file-backed store: an ordered sequence of tasks held in memory.
//!
//! The sequence is read once and written once by the caller. Between the
//! two, one of the operations here changes it.

use crate::error::StoreError;
use crate::json::{encode_tasks, tasks_document};
use crate::rows::{decode_file_tasks, file_task_views, file_tasks_in};
use vstd::prelude::*;

verus! {

/// A task as the file holds it: the text is all in the description.
#[derive(Debug, Clone, PartialEq, Eq)]
pub struct FileTask {
    pub id: u32,
    pub description: String,
    pub is_completed: bool,
}

/// What a [`FileTask`] is, its text taken as a character sequence.
pub struct FileTaskView {
    pub id: u32,
    pub description: Seq<char>,
    pub is_completed: bool,
}

impl View for FileTask {
    type V = FileTaskView;

    open spec fn view(&self) -> FileTaskView {
        FileTaskView {
            id: self.id,
            description: self.description@,
            is_completed: self.is_completed,
        }
    }
}

/// The same task, completed.
pub open spec fn completed(task: FileTask) -> FileTask {
    FileTask { id: task.id, description: task.description, is_completed: true }
}

/// Some task of `tasks` has the id `id`.
pub open spec fn holds_id(tasks: Seq<FileTask>, id: u32) -> bool {
    exists|i: int| 0 <= i < tasks.len() && (#[trigger] tasks[i]).id == id
}

/// The task at `i` has the id `id`, and none before it has.
pub open spec fn is_first_with_id(tasks: Seq<FileTask>, id: u32, i: int) -> bool {
    &&& 0 <= i < tasks.len()
    &&& tasks[i].id == id
    &&& forall|j: int| 0 <= j < i ==> (#[trigger] tasks[j]).id != id
}

/// Where the first task with the id `id` stands. It means something only
/// where `holds_id(tasks, id)`.
pub open spec fn first_index(tasks: Seq<FileTask>, id: u32) -> int {
    choose|i: int| is_first_with_id(tasks, id, i)
}

/// No two tasks share an id.
pub open spec fn distinct_ids(tasks: Seq<FileTask>) -> bool {
    forall|i: int, j: int|
        0 <= i < j < tasks.len() ==> (#[trigger] tasks[i]).id != (#[trigger] tasks[j]).id
}

/// Every task's id is its place in the sequence, counted from one: what
/// holds of a sequence that only ever grew.
pub open spec fn positional_ids(tasks: Seq<FileTask>) -> bool {
    forall|i: int| 0 <= i < tasks.len() ==> (#[trigger] tasks[i]).id == i + 1
}

/// At most one place is the first with a given id.
pub proof fn lemma_first_index_unique(tasks: Seq<FileTask>, id: u32, i: int)
    requires
        is_first_with_id(tasks, id, i),
    ensures
        holds_id(tasks, id),
        first_index(tasks, id) == i,
{
    let k = first_index(tasks, id);
    assert(is_first_with_id(tasks, id, k));
    if k < i {
        assert(tasks[k].id != id);
    }
    if i < k {
        assert(tasks[i].id != id);
    }
}

/// Ids that are positions are distinct.
pub proof fn lemma_positional_ids_are_distinct(tasks: Seq<FileTask>)
    requires
        positional_ids(tasks),
    ensures
        distinct_ids(tasks),
{
}

/// What was found where the tasks file should be.
#[derive(Debug, Clone, PartialEq, Eq)]
pub enum FileContent {
    /// No file.
    Missing,
    /// A file that could not be read.
    Unreadable,
    /// A file with this text.
    Text(String),
}

/// What the caller should be told about a load.
#[derive(Debug, Clone, Copy, PartialEq, Eq)]
pub enum LoadNote {
    /// The file was read.
    Loaded,
    /// There was no file: the store starts empty.
    NoFile,
    /// The file could not be read as a list of tasks: the store starts
    /// empty.
    Unreadable,
}

/// The tasks that a load yields: those that the file's text holds, and none
/// where there is no file or its text holds no list of tasks.
pub open spec fn loaded_tasks(content: FileContent) -> Seq<FileTaskView> {
    match content {
        FileContent::Text(text) => match file_tasks_in(text@) {
            Some(tasks) => tasks,
            None => Seq::empty(),
        },
        _ => Seq::empty(),
    }
}

/// The note that a load yields.
pub open spec fn load_note(content: FileContent) -> LoadNote {
    match content {
        FileContent::Missing => LoadNote::NoFile,
        FileContent::Unreadable => LoadNote::Unreadable,
        FileContent::Text(text) => if file_tasks_in(text@) is Some {
            LoadNote::Loaded
        } else {
            LoadNote::Unreadable
        },
    }
}

/// The tasks of the file-backed store, in insertion order.
#[derive(Debug, Clone, PartialEq, Eq)]
pub struct FileStore {
    pub tasks: Vec<FileTask>,
}

impl View for FileStore {
    type V = Seq<FileTask>;

    open spec fn view(&self) -> Seq<FileTask> {
        self.tasks@
    }
}

impl FileStore {
    /// An empty store.
    pub fn new() -> (r: FileStore)
        ensures
            r@ == Seq::<FileTask>::empty(),
    {
        FileStore { tasks: Vec::new() }
    }

    /// The store that a file's content stands for. A file that is missing,
    /// or that holds no list of tasks, gives an empty store and a note,
    /// never a failure.
    pub fn load(content: FileContent) -> (r: (FileStore, LoadNote))
        ensures
            file_task_views(r.0@) == loaded_tasks(content),
            r.0@.len() == loaded_tasks(content).len(),
            r.1 == load_note(content),
    {
        match content {
            FileContent::Missing => (FileStore::new(), LoadNote::NoFile),
            FileContent::Unreadable => (FileStore::new(), LoadNote::Unreadable),
            FileContent::Text(text) => match decode_file_tasks(text.as_str()) {
                Some(tasks) => (FileStore { tasks }, LoadNote::Loaded),
                None => (FileStore::new(), LoadNote::Unreadable),
            },
        }
    }

    /// Appends a task that is not completed. Its id is the number of tasks
    /// before the call, plus one.
    pub fn add(&mut self, description: String)
        requires
            old(self)@.len() < u32::MAX,
        ensures
            final(self)@ == old(self)@.push(
                (FileTask {
                    id: (old(self)@.len() + 1) as u32,
                    description,
                    is_completed: false,
                }),
            ),
            positional_ids(old(self)@) ==> positional_ids(final(self)@),
            distinct_ids(old(self)@) && !holds_id(old(self)@, (old(self)@.len() + 1) as u32)
                ==> distinct_ids(final(self)@),
    {
        let count: usize = self.tasks.len();
        let id: u32 = (count + 1) as u32;
        self.tasks.push(FileTask { id, description, is_completed: false });
    }

    /// Where the first task with the id `id` stands, if there is one.
    pub fn position(&self, id: u32) -> (r: Option<usize>)
        ensures
            match r {
                Some(i) => is_first_with_id(self@, id, i as int) && first_index(self@, id) == i,
                None => !holds_id(self@, id),
            },
    {
        let mut i: usize = 0;
        while i < self.tasks.len()
            invariant
                i <= self.tasks@.len(),
                forall|j: int| 0 <= j < i ==> (#[trigger] self.tasks@[j]).id != id,
            decreases self.tasks@.len() - i,
        {
            if self.tasks[i].id == id {
                proof {
                    lemma_first_index_unique(self@, id, i as int);
                }
                return Some(i);
            }
            i = i + 1;
        }
        None
    }

    /// Completes the first task with the id `id`. Where no task has that
    /// id, nothing changes and the call fails with `TaskNotFound`.
    pub fn complete(&mut self, id: u32) -> (r: Result<(), StoreError>)
        ensures
            holds_id(old(self)@, id) ==> r is Ok && is_first_with_id(
                old(self)@,
                id,
                first_index(old(self)@, id),
            ) && final(self)@ == old(self)@.update(
                first_index(old(self)@, id),
                completed(old(self)@[first_index(old(self)@, id)]),
            ),
            !holds_id(old(self)@, id) ==> r == Err::<(), StoreError>(StoreError::TaskNotFound)
                && final(self)@ == old(self)@,
            final(self)@.len() == old(self)@.len(),
            forall|j: int|
                0 <= j < old(self)@.len() && (#[trigger] old(self)@[j]).is_completed
                    ==> final(self)@[j].is_completed,
            distinct_ids(old(self)@) ==> distinct_ids(final(self)@),
            positional_ids(old(self)@) ==> positional_ids(final(self)@),
    {
        match self.position(id) {
            Some(i) => {
                self.tasks[i].is_completed = true;
                assert(self.tasks@ =~= old(self)@.update(i as int, completed(old(self)@[i as int])));
                Ok(())
            },
            None => Err(StoreError::TaskNotFound),
        }
    }

    /// Removes the first task with the id `id`; the others keep their
    /// order. Where no task has that id, nothing changes and the call fails
    /// with `TaskNotFound`.
    pub fn delete(&mut self, id: u32) -> (r: Result<(), StoreError>)
        ensures
            holds_id(old(self)@, id) ==> r is Ok && is_first_with_id(
                old(self)@,
                id,
                first_index(old(self)@, id),
            ) && final(self)@ == old(self)@.remove(first_index(old(self)@, id)),
            !holds_id(old(self)@, id) ==> r == Err::<(), StoreError>(StoreError::TaskNotFound)
                && final(self)@ == old(self)@,
            distinct_ids(old(self)@) ==> distinct_ids(final(self)@) && !holds_id(final(self)@, id),
    {
        match self.position(id) {
            Some(i) => {
                self.tasks.remove(i);
                Ok(())
            },
            None => Err(StoreError::TaskNotFound),
        }
    }

    /// Writes the tasks as the file holds them: one JSON array, without any
    /// white space.
    pub fn to_json(&self) -> (r: String)
        ensures
            r@ == tasks_document(self@),
    {
        encode_tasks(&self.tasks)
    }

    /// Removes every task, completed or not.
    pub fn clear(&mut self)
        ensures
            final(self)@ == Seq::<FileTask>::empty(),
    {
        self.tasks.clear();
    }
}

} // verus!
