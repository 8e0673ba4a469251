//! A to-do list manager's core: the task model, the file-backed store kept
//! in memory, and the requests and reply handling of the remote store.
//!
//! Nothing here touches a file or a socket. The caller reads and sends
//! text; this crate decides what is sent and what an answer means.

pub mod decimal;
pub mod error;
pub mod file_store;
pub mod json;
pub mod models;
pub mod remote;
pub mod request;
pub mod rows;

pub use error::StoreError;
pub use models::{AddTask, Cli, Commands, Task};
pub use remote::{add_task, clear_tasks, complete_task, delete_task, list_tasks};
pub use request::SupabaseClient;
