use todo_cli::file_store::FileTask;
use todo_cli::rows::{
    decode_file_tasks, decode_tasks, find, read_file_task, read_file_tasks, read_flag, read_id,
    read_task, read_tasks, read_text, Field, Member,
};
use todo_cli::Task;

fn member(name: &str, value: Field) -> Member {
    Member { name: name.to_string(), value }
}

fn text(s: &str) -> Field {
    Field::Text(s.to_string())
}

fn full_row() -> Vec<Member> {
    vec![
        member("description", text("two litres")),
        member("id", Field::Number(Some(5))),
        member("is_completed", Field::Bool(true)),
        member("title", text("Buy milk")),
    ]
}

#[test]
fn find_returns_first_member_of_that_name() {
    let row = vec![
        member("a", Field::Null),
        member("b", Field::Bool(true)),
        member("b", Field::Bool(false)),
    ];
    assert_eq!(find(&row, "a"), Some(&Field::Null));
    assert_eq!(find(&row, "b"), Some(&Field::Bool(true)));
    assert_eq!(find(&row, "c"), None);
    assert_eq!(find(&vec![], "a"), None);
}

#[test]
fn read_id_takes_numbers_that_fit() {
    assert_eq!(read_id(Some(&Field::Number(Some(0)))), Some(0));
    assert_eq!(read_id(Some(&Field::Number(Some(4294967295)))), Some(u32::MAX));
    assert_eq!(read_id(Some(&Field::Number(Some(4294967296)))), None);
    assert_eq!(read_id(Some(&Field::Number(None))), None);
    assert_eq!(read_id(Some(&text("1"))), None);
    assert_eq!(read_id(None), None);
}

#[test]
fn read_text_and_flag_take_their_kind_only() {
    assert_eq!(read_text(Some(&text("x"))), Some("x".to_string()));
    assert_eq!(read_text(Some(&Field::Null)), None);
    assert_eq!(read_text(None), None);
    assert_eq!(read_flag(Some(&Field::Bool(true))), Some(true));
    assert_eq!(read_flag(Some(&Field::Bool(false))), Some(false));
    assert_eq!(read_flag(Some(&Field::Number(Some(1)))), None);
    assert_eq!(read_flag(None), None);
}

#[test]
fn read_task_takes_a_full_row() {
    assert_eq!(
        read_task(&full_row()),
        Some(Task {
            id: 5,
            title: "Buy milk".to_string(),
            description: Some("two litres".to_string()),
            is_completed: true,
        })
    );
}

#[test]
fn read_task_description_may_be_missing_or_null() {
    let expected =
        Some(Task { id: 1, title: "t".to_string(), description: None, is_completed: false });
    let missing = vec![
        member("id", Field::Number(Some(1))),
        member("title", text("t")),
        member("is_completed", Field::Bool(false)),
    ];
    assert_eq!(read_task(&missing), expected);
    let mut null = missing.clone();
    null.push(member("description", Field::Null));
    assert_eq!(read_task(&null), expected);
    let mut wrong = missing;
    wrong.push(member("description", Field::Number(Some(3))));
    assert_eq!(read_task(&wrong), None);
}

#[test]
fn read_task_requires_id_title_and_flag() {
    for dropped in ["id", "title", "is_completed"] {
        let row: Vec<Member> = full_row().into_iter().filter(|m| m.name != dropped).collect();
        assert_eq!(read_task(&row), None);
    }
}

#[test]
fn read_file_task_requires_all_three() {
    let row = vec![
        member("id", Field::Number(Some(2))),
        member("description", text("d")),
        member("is_completed", Field::Bool(false)),
        member("extra", Field::Array),
    ];
    assert_eq!(
        read_file_task(&row),
        Some(FileTask { id: 2, description: "d".to_string(), is_completed: false })
    );
    for dropped in ["id", "description", "is_completed"] {
        let less: Vec<Member> = row.clone().into_iter().filter(|m| m.name != dropped).collect();
        assert_eq!(read_file_task(&less), None);
    }
}

#[test]
fn read_tasks_is_all_or_nothing() {
    let good = full_row();
    let bad = vec![member("id", Field::Number(Some(1)))];
    assert_eq!(read_tasks(&vec![]), Some(vec![]));
    assert_eq!(read_tasks(&vec![good.clone(), good.clone()]).map(|v| v.len()), Some(2));
    assert_eq!(read_tasks(&vec![good.clone(), bad.clone()]), None);
    assert_eq!(read_tasks(&vec![bad.clone(), good]), None);
    assert_eq!(read_file_tasks(&vec![]), Some(vec![]));
    assert_eq!(read_file_tasks(&vec![bad]), None);
}

#[test]
fn decode_tasks_reads_rows_in_order() {
    let text = r#"[
        {"id": 2, "created_at": "2024-05-01T10:00:00Z", "title": "b", "description": null, "is_completed": true},
        {"id": 1, "title": "a \"quoted\"", "description": "d\n", "is_completed": false, "tags": ["x"], "meta": {"k": 1}}
    ]"#;
    assert_eq!(
        decode_tasks(text),
        Some(vec![
            Task { id: 2, title: "b".to_string(), description: None, is_completed: true },
            Task {
                id: 1,
                title: "a \"quoted\"".to_string(),
                description: Some("d\n".to_string()),
                is_completed: false,
            },
        ])
    );
}

#[test]
fn decode_tasks_of_empty_array_is_empty() {
    assert_eq!(decode_tasks("[]"), Some(vec![]));
    assert_eq!(decode_tasks(" [ ] "), Some(vec![]));
    assert_eq!(decode_file_tasks("[]"), Some(vec![]));
}

#[test]
fn decode_tasks_rejects_what_is_no_list_of_tasks() {
    for text in [
        "",
        "null",
        "{}",
        "[",
        "[1]",
        "[[]]",
        r#"[{"id":-1,"title":"t","is_completed":false}]"#,
        r#"[{"id":1.5,"title":"t","is_completed":false}]"#,
        r#"[{"id":4294967296,"title":"t","is_completed":false}]"#,
        r#"[{"id":"1","title":"t","is_completed":false}]"#,
        r#"[{"id":1,"title":null,"is_completed":false}]"#,
        r#"[{"id":1,"title":"t","is_completed":"no"}]"#,
        r#"[{"id":1,"title":"t","is_completed":false}] trailing"#,
    ] {
        assert_eq!(decode_tasks(text), None);
    }
}

#[test]
fn decode_file_tasks_reads_the_file_shape() {
    assert_eq!(
        decode_file_tasks(r#"[{"id":1,"description":"Buy milk","is_completed":false}]"#),
        Some(vec![FileTask { id: 1, description: "Buy milk".to_string(), is_completed: false }])
    );
    assert_eq!(decode_file_tasks(r#"[{"id":1,"title":"t","is_completed":false}]"#), None);
}
