use todo_store::{StoreError, Task, TodoDb};

fn task(name: &str, complete: bool) -> Task {
    Task { name: String::from(name), complete }
}

fn store_of(tasks: &[Task]) -> TodoDb {
    let mut db = TodoDb::new();
    for t in tasks {
        db.add_task(t.clone());
    }
    db
}

fn loaded(text: &str) -> Result<TodoDb, StoreError> {
    TodoDb::load(Some(text.as_bytes()))
}

fn refused(text: &str) -> bool {
    matches!(loaded(text), Err(StoreError::Parse(_)))
}

#[test]
fn load_without_a_file_gives_an_empty_store() {
    let db = TodoDb::load(None).unwrap();
    assert!(db.task_list().is_empty());
}

#[test]
fn load_reads_the_tasks_in_order() {
    let db = loaded(r#"{"tasks":[{"name":"a","complete":false},{"name":"b","complete":true}]}"#)
        .unwrap();
    assert_eq!(db.task_list(), &[task("a", false), task("b", true)]);
}

#[test]
fn load_reads_an_empty_list() {
    let db = loaded(r#"{"tasks":[]}"#).unwrap();
    assert!(db.task_list().is_empty());
}

#[test]
fn load_takes_the_members_of_a_task_in_either_order() {
    let db = loaded(r#"{"tasks":[{"complete":true,"name":"a"},{"name":"b","complete":false}]}"#)
        .unwrap();
    assert_eq!(db.task_list(), &[task("a", true), task("b", false)]);
}

#[test]
fn load_takes_white_space_and_escapes() {
    let text = "\n{ \"tasks\" : [\n  { \"name\" : \"caf\\u00e9 \\\"x\\\"\\n\", \"complete\" : false }\n] }\n";
    let db = loaded(text).unwrap();
    assert_eq!(db.task_list(), &[task("café \"x\"\n", false)]);
}

#[test]
fn load_keeps_tasks_of_the_same_name() {
    let db = loaded(r#"{"tasks":[{"name":"a","complete":false},{"name":"a","complete":false}]}"#)
        .unwrap();
    assert_eq!(db.task_list(), &[task("a", false), task("a", false)]);
}

#[test]
fn load_refuses_text_that_is_not_json() {
    assert!(refused(""));
    assert!(refused("tasks"));
    assert!(refused(r#"{"tasks":["#));
    assert!(refused(r#"{"tasks":[]} x"#));
    assert!(refused(r#"{"tasks":[{"name":"a","complete":false},]}"#));
}

#[test]
fn load_refuses_bytes_that_are_not_utf8() {
    let bytes: &[u8] = b"{\"tasks\":[{\"name\":\"\xff\",\"complete\":false}]}";
    assert!(matches!(TodoDb::load(Some(bytes)), Err(StoreError::Parse(_))));
}

#[test]
fn load_refuses_a_document_that_is_no_object() {
    assert!(refused("null"));
    assert!(refused("true"));
    assert!(refused("3"));
    assert!(refused(r#""tasks""#));
    assert!(refused("[]"));
    assert!(refused(r#"[[["a",false]]]"#));
}

#[test]
fn load_refuses_a_document_without_tasks() {
    assert!(refused("{}"));
    assert!(refused(r#"{"task":[]}"#));
    assert!(refused(r#"{"Tasks":[]}"#));
}

#[test]
fn load_refuses_an_unknown_member_of_the_document() {
    assert!(refused(r#"{"tasks":[],"version":1}"#));
    assert!(refused(r#"{"extra":null,"tasks":[]}"#));
}

#[test]
fn load_refuses_tasks_that_are_no_array() {
    assert!(refused(r#"{"tasks":null}"#));
    assert!(refused(r#"{"tasks":{}}"#));
    assert!(refused(r#"{"tasks":"a"}"#));
    assert!(refused(r#"{"tasks":{"name":"a","complete":false}}"#));
}

#[test]
fn load_refuses_a_task_that_is_no_object() {
    assert!(refused(r#"{"tasks":["a"]}"#));
    assert!(refused(r#"{"tasks":[null]}"#));
    assert!(refused(r#"{"tasks":[["a",false]]}"#));
    assert!(refused(r#"{"tasks":[{"name":"a","complete":false},3]}"#));
}

#[test]
fn load_refuses_a_task_with_a_missing_member() {
    assert!(refused(r#"{"tasks":[{}]}"#));
    assert!(refused(r#"{"tasks":[{"name":"a"}]}"#));
    assert!(refused(r#"{"tasks":[{"complete":false}]}"#));
    assert!(refused(r#"{"tasks":[{"name":"a","done":false}]}"#));
    assert!(refused(r#"{"tasks":[{"title":"a","complete":false}]}"#));
}

#[test]
fn load_refuses_a_task_with_an_unknown_member() {
    assert!(refused(r#"{"tasks":[{"name":"a","complete":false,"due":"today"}]}"#));
    assert!(refused(r#"{"tasks":[{"id":1,"name":"a","complete":false}]}"#));
}

#[test]
fn load_refuses_a_task_with_a_member_of_the_wrong_type() {
    assert!(refused(r#"{"tasks":[{"name":1,"complete":false}]}"#));
    assert!(refused(r#"{"tasks":[{"name":null,"complete":false}]}"#));
    assert!(refused(r#"{"tasks":[{"name":"a","complete":"false"}]}"#));
    assert!(refused(r#"{"tasks":[{"name":"a","complete":0}]}"#));
    assert!(refused(r#"{"tasks":[{"name":"a","complete":null}]}"#));
}

#[test]
fn load_refuses_the_whole_list_for_one_bad_task() {
    assert!(refused(
        r#"{"tasks":[{"name":"a","complete":false},{"name":"b"},{"name":"c","complete":true}]}"#
    ));
}

#[test]
fn a_syntax_error_says_where_it_is() {
    match loaded(r#"{"tasks":["#) {
        Err(StoreError::Parse(detail)) => assert!(detail.contains("line 1 column 10")),
        _ => panic!("the text should have been refused"),
    }
}

#[test]
fn a_value_that_is_no_store_says_so() {
    match loaded(r#"{"tasks":[{"name":"a"}]}"#) {
        Err(StoreError::Parse(detail)) => assert_eq!(detail, "not a list of tasks"),
        _ => panic!("the document should have been refused"),
    }
}

#[test]
fn save_writes_the_document_of_an_empty_store() {
    assert_eq!(TodoDb::new().save().unwrap(), br#"{"tasks":[]}"#);
}

#[test]
fn save_writes_the_tasks_in_order() {
    let db = store_of(&[task("Do a thing", false), task("b", true)]);
    let expected: &[u8] =
        br#"{"tasks":[{"complete":false,"name":"Do a thing"},{"complete":true,"name":"b"}]}"#;
    assert_eq!(db.save().unwrap(), expected);
}

#[test]
fn save_escapes_what_json_asks_for() {
    let db = store_of(&[task("say \"hi\"\\\n\tcafé \u{1}", false)]);
    let expected = "{\"tasks\":[{\"complete\":false,\"name\":\"say \\\"hi\\\"\\\\\\n\\tcafé \\u0001\"}]}";
    assert_eq!(db.save().unwrap(), expected.as_bytes());
}

#[test]
fn what_is_saved_loads_as_the_same_tasks() {
    let stores = [
        vec![],
        vec![task("a", false)],
        vec![task("a", true), task("b", false), task("a", true)],
        vec![task("", false), task(" ", true)],
        vec![task("quote \" backslash \\ slash / newline \n tab \t", false)],
        vec![task("ünïcödé 日本語 🙂 \u{0} \u{1f} \u{7f} \u{2028}", true)],
        vec![task("{\"tasks\":[]}", false), task("name", true), task("complete", false)],
    ];
    for tasks in stores.iter() {
        let db = store_of(tasks);
        let bytes = db.save().unwrap();
        let back = TodoDb::load(Some(&bytes)).unwrap();
        assert_eq!(back.task_list(), tasks.as_slice());
    }
}

#[test]
fn what_is_loaded_saves_as_the_same_bytes() {
    let texts = [
        r#"{"tasks":[]}"#,
        r#"{"tasks":[{"complete":false,"name":"a"}]}"#,
        r#"{"tasks":[{"complete":true,"name":"a \"b\" \\ c"},{"complete":false,"name":"é"}]}"#,
    ];
    for text in texts.iter() {
        let db = loaded(text).unwrap();
        assert_eq!(db.save().unwrap(), text.as_bytes());
    }
}

#[test]
fn saving_after_a_change_keeps_the_change() {
    let mut db = loaded(r#"{"tasks":[{"name":"a","complete":false},{"name":"b","complete":true}]}"#)
        .unwrap();
    db.mark_as_complete(0).unwrap();
    db.add_task(task("c", false));
    db.delete_all_completed_tasks();
    let back = TodoDb::load(Some(&db.save().unwrap())).unwrap();
    assert_eq!(back.task_list(), &[task("c", false)]);
}

#[test]
fn a_document_built_by_hand_is_read() {
    let mut first = serde_json::Map::new();
    first.insert(String::from("name"), serde_json::Value::String(String::from("a")));
    first.insert(String::from("complete"), serde_json::Value::Bool(true));
    let mut document = serde_json::Map::new();
    document.insert(
        String::from("tasks"),
        serde_json::Value::Array(vec![serde_json::Value::Object(first)]),
    );
    let db = TodoDb::from_document(&serde_json::Value::Object(document)).unwrap();
    assert_eq!(db.task_list(), &[task("a", true)]);
}

#[test]
fn a_value_that_is_no_document_is_refused() {
    let values = [
        serde_json::Value::Null,
        serde_json::Value::Bool(true),
        serde_json::Value::String(String::from("tasks")),
        serde_json::Value::Array(vec![]),
        serde_json::Value::Object(serde_json::Map::new()),
    ];
    for value in values.iter() {
        match TodoDb::from_document(value) {
            Err(StoreError::Parse(detail)) => assert_eq!(detail, "not a list of tasks"),
            _ => panic!("the value should have been refused"),
        }
    }
}

#[test]
fn the_document_of_a_store_holds_its_tasks() {
    let db = store_of(&[task("a", false), task("b", true)]);
    let document = db.to_document();
    let members = document.as_object().unwrap();
    assert_eq!(members.len(), 1);
    let tasks = members.get("tasks").unwrap().as_array().unwrap();
    assert_eq!(tasks.len(), 2);
    let second = tasks[1].as_object().unwrap();
    assert_eq!(second.len(), 2);
    assert_eq!(second.get("name").unwrap().as_str(), Some("b"));
    assert_eq!(second.get("complete").unwrap().as_bool(), Some(true));
    let first = tasks[0].as_object().unwrap();
    assert_eq!(first.get("name").unwrap().as_str(), Some("a"));
    assert_eq!(first.get("complete").unwrap().as_bool(), Some(false));
}

#[test]
fn the_document_of_a_store_is_read_as_that_store() {
    let tasks = [task("a", false), task("b", true), task("a", false)];
    let db = store_of(&tasks);
    let back = TodoDb::from_document(&db.to_document()).unwrap();
    assert_eq!(back.task_list(), &tasks);
}

#[test]
fn store_errors_have_their_messages() {
    let parse = StoreError::Parse(String::from("expected value at line 1 column 1"));
    assert_eq!(
        parse.message(),
        "Failed to read input file: expected value at line 1 column 1"
    );
    let io = StoreError::Io(String::from("disk full"));
    assert_eq!(io.message(), "Failed to save to output file: disk full");
}
