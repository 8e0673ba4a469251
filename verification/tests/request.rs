use todo_cli::decimal::{bool_str, decimal_text, digit_text};
use todo_cli::request::{header, with_predicate, Body, Header, Method, Request};
use todo_cli::{AddTask, Cli, Commands, SupabaseClient, Task};

fn client() -> SupabaseClient {
    SupabaseClient::new("https://db.example.org".to_string(), "k3y".to_string())
}

fn pair(name: &str, value: &str) -> Header {
    Header { name: name.to_string(), value: value.to_string() }
}

fn key_only() -> Vec<Header> {
    vec![pair("apikey", "k3y")]
}

fn write_headers() -> Vec<Header> {
    vec![
        pair("apikey", "k3y"),
        pair("Content-Type", "application/json"),
        pair("Prefer", "return=representation"),
    ]
}

#[test]
fn decimal_text_of_small_and_large_numbers() {
    assert_eq!(decimal_text(0), "0");
    assert_eq!(decimal_text(7), "7");
    assert_eq!(decimal_text(10), "10");
    assert_eq!(decimal_text(42), "42");
    assert_eq!(decimal_text(1000), "1000");
    assert_eq!(decimal_text(90210), "90210");
    assert_eq!(decimal_text(u32::MAX), "4294967295");
}

#[test]
fn decimal_text_agrees_with_std() {
    let mut n: u32 = 1;
    let mut k: u32 = 0;
    while k < 31 {
        assert_eq!(decimal_text(n), n.to_string());
        assert_eq!(decimal_text(n - 1), (n - 1).to_string());
        n *= 2;
        k += 1;
    }
}

#[test]
fn digit_text_is_one_digit() {
    assert_eq!(digit_text(0), "0");
    assert_eq!(digit_text(5), "5");
    assert_eq!(digit_text(9), "9");
}

#[test]
fn bool_str_is_true_or_false() {
    assert_eq!(bool_str(true), "true");
    assert_eq!(bool_str(false), "false");
}

#[test]
fn predicate_is_appended_after_question_mark() {
    assert_eq!(
        with_predicate("http://h/rest/v1/tasks".to_string(), "id", "3"),
        "http://h/rest/v1/tasks?id=eq.3"
    );
    assert_eq!(with_predicate(String::new(), "is_completed", "false"), "?is_completed=eq.false");
}

#[test]
fn header_holds_name_and_value() {
    assert_eq!(header("Prefer", "return=representation"), pair("Prefer", "return=representation"));
}

#[test]
fn client_keeps_address_and_key() {
    let c = client();
    assert_eq!(c.supabase_url, "https://db.example.org");
    assert_eq!(c.api_key, "k3y");
    assert_eq!(c.tasks_url(), "https://db.example.org/rest/v1/tasks");
}

#[test]
fn post_request_carries_new_task() {
    let task = AddTask::new("Buy milk".to_string(), Some("two litres".to_string()));
    assert_eq!(
        client().post(task),
        Request {
            method: Method::Post,
            url: "https://db.example.org/rest/v1/tasks".to_string(),
            headers: vec![pair("apikey", "k3y"), pair("Content-Type", "application/json")],
            body: Body::NewTask(AddTask {
                title: "Buy milk".to_string(),
                description: Some("two litres".to_string()),
                is_completed: false,
            }),
        }
    );
}

#[test]
fn new_task_is_not_completed() {
    let task = AddTask::new("t".to_string(), None);
    assert_eq!(task, AddTask { title: "t".to_string(), description: None, is_completed: false });
}

#[test]
fn get_request_without_filter() {
    assert_eq!(
        client().get(None),
        Request {
            method: Method::Get,
            url: "https://db.example.org/rest/v1/tasks".to_string(),
            headers: key_only(),
            body: Body::Empty,
        }
    );
}

#[test]
fn get_request_with_completion_filter() {
    assert_eq!(
        client().get(Some(true)).url,
        "https://db.example.org/rest/v1/tasks?is_completed=eq.true"
    );
    assert_eq!(
        client().get(Some(false)).url,
        "https://db.example.org/rest/v1/tasks?is_completed=eq.false"
    );
    assert_eq!(client().get(Some(false)).headers, key_only());
}

#[test]
fn patch_request_selects_by_id() {
    assert_eq!(
        client().patch(42, true),
        Request {
            method: Method::Patch,
            url: "https://db.example.org/rest/v1/tasks?id=eq.42".to_string(),
            headers: write_headers(),
            body: Body::Completion { is_completed: true },
        }
    );
}

#[test]
fn delete_request_selects_by_id() {
    assert_eq!(
        client().delete(Some(7)),
        Request {
            method: Method::Delete,
            url: "https://db.example.org/rest/v1/tasks?id=eq.7".to_string(),
            headers: write_headers(),
            body: Body::Empty,
        }
    );
    assert_eq!(
        client().delete(Some(u32::MAX)).url,
        "https://db.example.org/rest/v1/tasks?id=eq.4294967295"
    );
    assert_eq!(client().delete(Some(0)).url, "https://db.example.org/rest/v1/tasks?id=eq.0");
}

#[test]
fn delete_request_without_id_selects_completed() {
    assert_eq!(
        client().delete(None),
        Request {
            method: Method::Delete,
            url: "https://db.example.org/rest/v1/tasks?is_completed=eq.true".to_string(),
            headers: write_headers(),
            body: Body::Empty,
        }
    );
}

#[test]
fn request_for_each_command() {
    let c = client();
    assert_eq!(
        c.request_for(Commands::Add { title: "t".to_string(), description: None }),
        c.post(AddTask { title: "t".to_string(), description: None, is_completed: false })
    );
    assert_eq!(c.request_for(Commands::List), c.get(None));
    assert_eq!(c.request_for(Commands::Complete { id: 3 }), c.patch(3, true));
    assert_eq!(c.request_for(Commands::Delete { id: 3 }), c.delete(Some(3)));
    assert_eq!(c.request_for(Commands::Clear), c.delete(None));
}

#[test]
fn description_text_uses_placeholder() {
    let with = Task {
        id: 1,
        title: "t".to_string(),
        description: Some("d".to_string()),
        is_completed: false,
    };
    let without = Task { id: 2, title: "t".to_string(), description: None, is_completed: true };
    assert_eq!(with.description_text(), "d");
    assert_eq!(without.description_text(), "No Description Provided");
}

#[test]
fn file_path_defaults_to_tasks_json() {
    let given = Cli { file: Some("/tmp/mine.json".to_string()), command: Commands::List };
    let absent = Cli { file: None, command: Commands::Clear };
    assert_eq!(given.file_path(), "/tmp/mine.json");
    assert_eq!(absent.file_path(), "tasks.json");
}
