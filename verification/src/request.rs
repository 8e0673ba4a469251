//! The requests of the remote store: one resource collection, four verbs,
//! equality predicates in the query, and a static key in a header.
//!
//! A [`Request`] is a plain description. Sending it is the caller's part.

use crate::decimal::{bool_str, bool_text, decimal, decimal_text};
use crate::json::{completion_object, encode_completion, encode_new_task, new_task_object};
use crate::models::{text_view, AddTask, AddTaskView, Commands};
use vstd::prelude::*;

verus! {

/// The verb of a request.
#[derive(Debug, Clone, Copy, PartialEq, Eq)]
pub enum Method {
    Post,
    Get,
    Patch,
    Delete,
}

/// What a request carries as its JSON body.
#[derive(Debug, Clone, PartialEq, Eq)]
pub enum Body {
    /// No body.
    Empty,
    /// The task to create.
    NewTask(AddTask),
    /// An object with the one member `is_completed`.
    Completion { is_completed: bool },
}

/// What a [`Body`] is.
pub enum BodyView {
    Empty,
    NewTask(AddTaskView),
    Completion { is_completed: bool },
}

impl View for Body {
    type V = BodyView;

    open spec fn view(&self) -> BodyView {
        match *self {
            Body::Empty => BodyView::Empty,
            Body::NewTask(task) => BodyView::NewTask(task@),
            Body::Completion { is_completed } => BodyView::Completion { is_completed },
        }
    }
}

impl Body {
    /// The JSON text of the body, where there is one.
    pub open spec fn spec_json_text(&self) -> Option<Seq<char>> {
        match *self {
            Body::Empty => None,
            Body::NewTask(task) => Some(new_task_object(task@)),
            Body::Completion { is_completed } => Some(completion_object(is_completed)),
        }
    }

    /// Writes the body as JSON, without any white space; nothing for an
    /// empty body.
    pub fn json_text(&self) -> (r: Option<String>)
        ensures
            match self.spec_json_text() {
                Some(text) => r matches Some(s) && s@ == text,
                None => r is None,
            },
    {
        match self {
            Body::Empty => None,
            Body::NewTask(task) => Some(encode_new_task(task)),
            Body::Completion { is_completed } => Some(encode_completion(*is_completed)),
        }
    }
}

/// One header line.
#[derive(Debug, Clone, PartialEq, Eq)]
pub struct Header {
    pub name: String,
    pub value: String,
}

impl View for Header {
    type V = (Seq<char>, Seq<char>);

    open spec fn view(&self) -> (Seq<char>, Seq<char>) {
        (self.name@, self.value@)
    }
}

/// A request, ready to be sent.
#[derive(Debug, Clone, PartialEq, Eq)]
pub struct Request {
    pub method: Method,
    pub url: String,
    pub headers: Vec<Header>,
    pub body: Body,
}

/// What a [`Request`] is: the headers as pairs of name and value, in the
/// order in which they are set.
pub struct RequestView {
    pub method: Method,
    pub url: Seq<char>,
    pub headers: Seq<(Seq<char>, Seq<char>)>,
    pub body: BodyView,
}

impl View for Request {
    type V = RequestView;

    open spec fn view(&self) -> RequestView {
        RequestView {
            method: self.method,
            url: self.url@,
            headers: self.headers@.map_values(|h: Header| h@),
            body: self.body@,
        }
    }
}

/// The address of the task collection under the base address `base`.
pub open spec fn collection_url(base: Seq<char>) -> Seq<char> {
    base + "/rest/v1/tasks"@
}

/// The query that keeps the rows whose `field` equals `value`.
pub open spec fn eq_predicate(field: Seq<char>, value: Seq<char>) -> Seq<char> {
    "?"@ + field + "=eq."@ + value
}

/// The query that selects the row with this id.
pub open spec fn id_predicate(id: u32) -> Seq<char> {
    eq_predicate("id"@, decimal(id as nat))
}

/// The query that selects the rows with this completion flag.
pub open spec fn completion_predicate(is_completed: bool) -> Seq<char> {
    eq_predicate("is_completed"@, bool_text(is_completed))
}

/// The header that authenticates a request.
pub open spec fn api_key_header(key: Seq<char>) -> (Seq<char>, Seq<char>) {
    ("apikey"@, key)
}

/// The header that announces a JSON body.
pub open spec fn json_header() -> (Seq<char>, Seq<char>) {
    ("Content-Type"@, "application/json"@)
}

/// The header that asks for the affected rows in the response.
pub open spec fn representation_header() -> (Seq<char>, Seq<char>) {
    ("Prefer"@, "return=representation"@)
}

/// The headers of the verbs that change or remove rows.
pub open spec fn write_headers(key: Seq<char>) -> Seq<(Seq<char>, Seq<char>)> {
    seq![api_key_header(key), json_header(), representation_header()]
}

/// Appends an equality predicate to an address.
pub fn with_predicate(url: String, field: &str, value: &str) -> (r: String)
    ensures
        r@ == url@ + eq_predicate(field@, value@),
{
    let r = url.concat("?").concat(field).concat("=eq.").concat(value);
    assert(r@ =~= url@ + eq_predicate(field@, value@));
    r
}

/// A header line from two texts.
pub fn header(name: &str, value: &str) -> (r: Header)
    ensures
        r@ == (name@, value@),
{
    Header { name: String::from_str(name), value: String::from_str(value) }
}

/// The remote store's address and key.
#[derive(Debug, Clone, PartialEq, Eq)]
pub struct SupabaseClient {
    pub supabase_url: String,
    pub api_key: String,
}

impl SupabaseClient {
    /// A client for the store at `supabase_url`, authenticated by `api_key`.
    pub fn new(supabase_url: String, api_key: String) -> (r: SupabaseClient)
        ensures
            r.supabase_url == supabase_url,
            r.api_key == api_key,
    {
        SupabaseClient { supabase_url, api_key }
    }

    /// The request that creates `task`.
    pub open spec fn post_request(&self, task: AddTaskView) -> RequestView {
        RequestView {
            method: Method::Post,
            url: collection_url(self.supabase_url@),
            headers: seq![api_key_header(self.api_key@), json_header()],
            body: BodyView::NewTask(task),
        }
    }

    /// The request that reads the tasks: all of them, or those with the
    /// given completion flag.
    pub open spec fn get_request(&self, is_completed: Option<bool>) -> RequestView {
        RequestView {
            method: Method::Get,
            url: match is_completed {
                Some(flag) => collection_url(self.supabase_url@) + completion_predicate(flag),
                None => collection_url(self.supabase_url@),
            },
            headers: seq![api_key_header(self.api_key@)],
            body: BodyView::Empty,
        }
    }

    /// The request that sets the completion flag of the row with this id.
    pub open spec fn patch_request(&self, id: u32, is_completed: bool) -> RequestView {
        RequestView {
            method: Method::Patch,
            url: collection_url(self.supabase_url@) + id_predicate(id),
            headers: write_headers(self.api_key@),
            body: BodyView::Completion { is_completed },
        }
    }

    /// The request that removes the row with this id, or, without an id,
    /// every completed row.
    pub open spec fn delete_request(&self, id: Option<u32>) -> RequestView {
        RequestView {
            method: Method::Delete,
            url: match id {
                Some(id) => collection_url(self.supabase_url@) + id_predicate(id),
                None => collection_url(self.supabase_url@) + completion_predicate(true),
            },
            headers: write_headers(self.api_key@),
            body: BodyView::Empty,
        }
    }

    /// The request that carries out `command`.
    pub open spec fn planned(&self, command: Commands) -> RequestView {
        match command {
            Commands::Add { title, description } => self.post_request(
                AddTaskView {
                    title: title@,
                    description: text_view(description),
                    is_completed: false,
                },
            ),
            Commands::List => self.get_request(None),
            Commands::Complete { id } => self.patch_request(id, true),
            Commands::Delete { id } => self.delete_request(Some(id)),
            Commands::Clear => self.delete_request(None),
        }
    }

    /// The address of the task collection.
    pub fn tasks_url(&self) -> (r: String)
        ensures
            r@ == collection_url(self.supabase_url@),
    {
        self.supabase_url.clone().concat("/rest/v1/tasks")
    }

    /// The key and the announcement of a JSON body.
    fn body_headers(&self) -> (r: Vec<Header>)
        ensures
            r@.map_values(|h: Header| h@) == seq![api_key_header(self.api_key@), json_header()],
    {
        let mut headers: Vec<Header> = Vec::new();
        headers.push(header("apikey", self.api_key.as_str()));
        headers.push(header("Content-Type", "application/json"));
        assert(headers@.map_values(|h: Header| h@) =~= seq![
            api_key_header(self.api_key@),
            json_header(),
        ]);
        headers
    }

    /// The key header alone.
    fn key_headers(&self) -> (r: Vec<Header>)
        ensures
            r@.map_values(|h: Header| h@) == seq![api_key_header(self.api_key@)],
    {
        let mut headers: Vec<Header> = Vec::new();
        headers.push(header("apikey", self.api_key.as_str()));
        assert(headers@.map_values(|h: Header| h@) =~= seq![api_key_header(self.api_key@)]);
        headers
    }

    /// The three headers of a verb that changes or removes rows.
    fn representation_headers(&self) -> (r: Vec<Header>)
        ensures
            r@.map_values(|h: Header| h@) == write_headers(self.api_key@),
    {
        let mut headers: Vec<Header> = Vec::new();
        headers.push(header("apikey", self.api_key.as_str()));
        headers.push(header("Content-Type", "application/json"));
        headers.push(header("Prefer", "return=representation"));
        assert(headers@.map_values(|h: Header| h@) =~= write_headers(self.api_key@));
        headers
    }

    /// Builds the creation request for `task`.
    pub fn post(&self, task: AddTask) -> (r: Request)
        ensures
            r@ == self.post_request(task@),
    {
        Request {
            method: Method::Post,
            url: self.tasks_url(),
            headers: self.body_headers(),
            body: Body::NewTask(task),
        }
    }

    /// Builds the read request, constrained to a completion flag where one
    /// is given.
    pub fn get(&self, is_completed: Option<bool>) -> (r: Request)
        ensures
            r@ == self.get_request(is_completed),
    {
        let url = match is_completed {
            Some(flag) => with_predicate(self.tasks_url(), "is_completed", bool_str(flag)),
            None => self.tasks_url(),
        };
        Request { method: Method::Get, url, headers: self.key_headers(), body: Body::Empty }
    }

    /// Builds the partial update of the row with this id.
    pub fn patch(&self, id: u32, is_completed: bool) -> (r: Request)
        ensures
            r@ == self.patch_request(id, is_completed),
    {
        let number = decimal_text(id);
        Request {
            method: Method::Patch,
            url: with_predicate(self.tasks_url(), "id", number.as_str()),
            headers: self.representation_headers(),
            body: Body::Completion { is_completed },
        }
    }

    /// Builds the removal of the row with this id, or, without an id, of
    /// every completed row.
    pub fn delete(&self, id: Option<u32>) -> (r: Request)
        ensures
            r@ == self.delete_request(id),
    {
        let url = match id {
            Some(id) => {
                let number = decimal_text(id);
                with_predicate(self.tasks_url(), "id", number.as_str())
            },
            None => with_predicate(self.tasks_url(), "is_completed", "true"),
        };
        Request {
            method: Method::Delete,
            url,
            headers: self.representation_headers(),
            body: Body::Empty,
        }
    }

    /// Builds the one request that carries out `command`.
    pub fn request_for(&self, command: Commands) -> (r: Request)
        ensures
            r@ == self.planned(command),
    {
        match command {
            Commands::Add { title, description } => self.post(AddTask::new(title, description)),
            Commands::List => self.get(None),
            Commands::Complete { id } => self.patch(id, true),
            Commands::Delete { id } => self.delete(Some(id)),
            Commands::Clear => self.delete(None),
        }
    }
}

} // verus!
