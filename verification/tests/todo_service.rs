use todo_api::handler::{
    create_todo_handler, delete_todo_handler, edit_todo_handler, get_todo_handler,
    health_checker_handler, status, todos_list_handler,
};
use todo_api::model::{CreateTodoSchema, QueryOptions, UpdateTodoSchema};
use todo_api::store::TodoStore;

fn create(store: &mut TodoStore, title: &str, content: &str, now: i64) -> i32 {
    let body = CreateTodoSchema {
        title: title.to_string(),
        content: content.to_string(),
    };
    let resp = create_todo_handler(store, body, now);
    assert_eq!(resp.status, "success");
    resp.data.todo.id
}

fn no_change() -> UpdateTodoSchema {
    UpdateTodoSchema {
        title: None,
        content: None,
        completed: None,
    }
}

#[test]
fn root_status_is_ok() {
    let r = status();
    assert_eq!(r.status, "OK");
}

#[test]
fn health_checker_fixed_message() {
    let r = health_checker_handler();
    assert_eq!(r.status, "success");
    assert_eq!(
        r.message,
        "Build Simple CRUD API with Rust, Actix Web, and PostgreSQL"
    );
}

#[test]
fn create_then_get_matches_submission() {
    let mut store = TodoStore::new();
    let id = create(&mut store, "write tests", "cover the store", 100);
    let got = store.get_by_id(id).expect("created record must be found");
    assert_eq!(got.title, "write tests");
    assert_eq!(got.content, "cover the store");
    assert!(!got.completed);
    assert_eq!(got.created_at, got.updated_at);
    assert_eq!(got.created_at, 100);
}

#[test]
fn identifiers_start_at_one_and_increase() {
    let mut store = TodoStore::new();
    assert_eq!(create(&mut store, "a", "1", 0), 1);
    assert_eq!(create(&mut store, "b", "2", 0), 2);
    assert_eq!(create(&mut store, "c", "3", 0), 3);
}

#[test]
fn list_returns_at_most_limit_in_increasing_id_order() {
    let mut store = TodoStore::new();
    for i in 0..5 {
        create(&mut store, &format!("t{}", i), "c", 0);
    }
    let opts = QueryOptions {
        page: Some(1),
        limit: Some(3),
    };
    let r = todos_list_handler(&store, &opts);
    assert_eq!(r.status, "success");
    assert_eq!(r.results, 3);
    let ids: Vec<i32> = r.todos.iter().map(|t| t.id).collect();
    assert_eq!(ids, vec![1, 2, 3]);
}

#[test]
fn list_second_page_skips_offset_rows() {
    let mut store = TodoStore::new();
    for i in 0..5 {
        create(&mut store, &format!("t{}", i), "c", 0);
    }
    let opts = QueryOptions {
        page: Some(2),
        limit: Some(2),
    };
    let r = todos_list_handler(&store, &opts);
    let ids: Vec<i32> = r.todos.iter().map(|t| t.id).collect();
    assert_eq!(ids, vec![3, 4]);
}

#[test]
fn list_defaults_are_page_one_limit_ten() {
    let mut store = TodoStore::new();
    for i in 0..12 {
        create(&mut store, &format!("t{}", i), "c", 0);
    }
    let opts = QueryOptions {
        page: None,
        limit: None,
    };
    let r = todos_list_handler(&store, &opts);
    assert_eq!(r.results, 10);
    assert_eq!(r.todos[0].id, 1);
    assert_eq!(r.todos[9].id, 10);
}

#[test]
fn list_empty_window_is_success_with_empty_list() {
    let mut store = TodoStore::new();
    create(&mut store, "only", "one", 0);
    let opts = QueryOptions {
        page: Some(4),
        limit: Some(10),
    };
    let r = todos_list_handler(&store, &opts);
    assert_eq!(r.status, "success");
    assert_eq!(r.results, 0);
    assert!(r.todos.is_empty());
}

#[test]
fn update_with_all_fields_absent_only_refreshes_updated_at() {
    let mut store = TodoStore::new();
    let id = create(&mut store, "keep", "everything", 50);
    let r = edit_todo_handler(&mut store, id, &no_change(), 60)
        .ok()
        .expect("record exists");
    let t = r.data.todo;
    assert_eq!(t.id, id);
    assert_eq!(t.title, "keep");
    assert_eq!(t.content, "everything");
    assert!(!t.completed);
    assert_eq!(t.created_at, 50);
    assert_eq!(t.updated_at, 60);
    let stored = store.get_by_id(id).unwrap();
    assert_eq!(stored.updated_at, 60);
    assert_eq!(stored.title, "keep");
}

#[test]
fn update_applies_present_fields_and_keeps_absent_ones() {
    let mut store = TodoStore::new();
    let id = create(&mut store, "old title", "old content", 1);
    let patch = UpdateTodoSchema {
        title: Some("new title".to_string()),
        content: None,
        completed: Some(true),
    };
    let r = edit_todo_handler(&mut store, id, &patch, 2)
        .ok()
        .expect("record exists");
    let t = r.data.todo;
    assert_eq!(t.title, "new title");
    assert_eq!(t.content, "old content");
    assert!(t.completed);
    assert_eq!(t.created_at, 1);
    assert_eq!(t.updated_at, 2);
}

#[test]
fn get_nonexistent_is_not_found() {
    let store = TodoStore::new();
    let r = get_todo_handler(&store, 5);
    let e = r.err().expect("must be the failure envelope");
    assert_eq!(e.status, "fail");
    assert_eq!(e.message, "Todo with ID: 5 not found");
}

#[test]
fn update_nonexistent_is_not_found() {
    let mut store = TodoStore::new();
    let r = edit_todo_handler(&mut store, 9, &no_change(), 0);
    let e = r.err().expect("must be the failure envelope");
    assert_eq!(e.status, "fail");
    assert_eq!(e.message, "Todo with ID: 9 not found");
}

#[test]
fn delete_nonexistent_is_not_found() {
    let mut store = TodoStore::new();
    assert_eq!(store.delete(3), 0);
    let r = delete_todo_handler(&mut store, 3);
    let e = r.err().expect("must be the failure envelope");
    assert_eq!(e.status, "fail");
    assert_eq!(e.message, "Todo with ID: 3 not found");
}

#[test]
fn delete_removes_the_record_for_good() {
    let mut store = TodoStore::new();
    let id = create(&mut store, "gone", "soon", 0);
    assert_eq!(store.delete(id), 1);
    assert!(store.get_by_id(id).is_none());
    assert_eq!(store.delete(id), 0);
}

#[test]
fn delete_in_the_middle_keeps_the_others_in_order() {
    let mut store = TodoStore::new();
    for i in 0..4 {
        create(&mut store, &format!("t{}", i), "c", 0);
    }
    assert_eq!(store.delete(2), 1);
    let opts = QueryOptions {
        page: None,
        limit: None,
    };
    let r = todos_list_handler(&store, &opts);
    let ids: Vec<i32> = r.todos.iter().map(|t| t.id).collect();
    assert_eq!(ids, vec![1, 3, 4]);
    assert_eq!(store.get_by_id(3).unwrap().title, "t2");
}

#[test]
fn deleted_identifier_is_never_reassigned() {
    let mut store = TodoStore::new();
    let id = create(&mut store, "first", "a", 0);
    assert_eq!(store.delete(id), 1);
    let id2 = create(&mut store, "second", "b", 0);
    assert_ne!(id, id2);
    assert_eq!(id2, 2);
}

#[test]
fn scenario_full_lifecycle() {
    let mut store = TodoStore::new();
    let body = CreateTodoSchema {
        title: "A".to_string(),
        content: "B".to_string(),
    };
    let created = create_todo_handler(&mut store, body, 10);
    assert_eq!(created.status, "success");
    let t = &created.data.todo;
    assert_eq!(t.id, 1);
    assert_eq!(t.title, "A");
    assert_eq!(t.content, "B");
    assert!(!t.completed);

    let got = get_todo_handler(&store, 1).ok().expect("must be found");
    assert_eq!(got.status, "success");
    assert_eq!(got.data.todo.title, "A");

    let patch = UpdateTodoSchema {
        title: None,
        content: None,
        completed: Some(true),
    };
    let patched = edit_todo_handler(&mut store, 1, &patch, 11)
        .ok()
        .expect("must be found");
    assert!(patched.data.todo.completed);
    assert_eq!(patched.data.todo.title, "A");
    assert_eq!(patched.data.todo.content, "B");

    assert!(delete_todo_handler(&mut store, 1).is_ok());

    let after = get_todo_handler(&store, 1);
    let e = after.err().expect("must be gone");
    assert_eq!(e.status, "fail");
    assert_eq!(e.message, "Todo with ID: 1 not found");
}
