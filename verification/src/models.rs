//! The task entity and the parsed command line.

use vstd::prelude::*;

verus! {

/// A task as the remote store holds it.
#[derive(Debug, Clone, PartialEq, Eq)]
pub struct Task {
    pub id: u32,
    pub title: String,
    pub description: Option<String>,
    pub is_completed: bool,
}

/// What a [`Task`] is, text taken as character sequences.
pub struct TaskView {
    pub id: u32,
    pub title: Seq<char>,
    pub description: Option<Seq<char>>,
    pub is_completed: bool,
}

/// The view of an optional text.
pub open spec fn text_view(text: Option<String>) -> Option<Seq<char>> {
    match text {
        Some(s) => Some(s@),
        None => None,
    }
}

impl View for Task {
    type V = TaskView;

    open spec fn view(&self) -> TaskView {
        TaskView {
            id: self.id,
            title: self.title@,
            description: text_view(self.description),
            is_completed: self.is_completed,
        }
    }
}

impl Task {
    /// What is shown for a task without a description.
    pub open spec fn placeholder() -> Seq<char> {
        "No Description Provided"@
    }

    /// The description as it is shown: the text itself, or the placeholder
    /// where the task has none.
    pub open spec fn shown_description(&self) -> Seq<char> {
        match self.description {
            Some(d) => d@,
            None => Self::placeholder(),
        }
    }

    /// The text to display as the description.
    pub fn description_text(&self) -> (r: String)
        ensures
            r@ == self.shown_description(),
    {
        match &self.description {
            Some(d) => d.clone(),
            None => String::from_str("No Description Provided"),
        }
    }
}

/// A task that is about to be created: it has no id yet.
#[derive(Debug, Clone, PartialEq, Eq)]
pub struct AddTask {
    pub title: String,
    pub description: Option<String>,
    pub is_completed: bool,
}

/// What an [`AddTask`] is, text taken as character sequences.
pub struct AddTaskView {
    pub title: Seq<char>,
    pub description: Option<Seq<char>>,
    pub is_completed: bool,
}

impl View for AddTask {
    type V = AddTaskView;

    open spec fn view(&self) -> AddTaskView {
        AddTaskView {
            title: self.title@,
            description: text_view(self.description),
            is_completed: self.is_completed,
        }
    }
}

impl AddTask {
    /// A new task is never completed at creation.
    pub fn new(title: String, description: Option<String>) -> (r: AddTask)
        ensures
            r.title == title,
            r.description == description,
            !r.is_completed,
    {
        AddTask { title, description, is_completed: false }
    }
}

/// One invocation of the program.
#[derive(Debug, Clone, PartialEq, Eq)]
pub struct Cli {
    /// Path of the tasks file, where the file-backed store is used.
    pub file: Option<String>,
    /// The command to carry out.
    pub command: Commands,
}

impl Cli {
    /// Where the tasks file is looked for when no path is given.
    pub open spec fn default_file() -> Seq<char> {
        "tasks.json"@
    }

    /// The path of the tasks file: the one that was given, or the default.
    pub fn file_path(&self) -> (r: String)
        ensures
            r@ == match self.file {
                Some(path) => path@,
                None => Self::default_file(),
            },
    {
        match &self.file {
            Some(path) => path.clone(),
            None => String::from_str("tasks.json"),
        }
    }
}

/// The five operations of a store.
#[derive(Debug, Clone, PartialEq, Eq)]
pub enum Commands {
    /// Add a new task.
    Add { title: String, description: Option<String> },
    /// List the tasks.
    List,
    /// Mark the task with this id as completed.
    Complete { id: u32 },
    /// Delete the task with this id.
    Delete { id: u32 },
    /// Remove the completed tasks.
    Clear,
}

} // verus!
