use std::collections::HashSet;

use todo_api::handlers::{
    confirm_write, create_todo, delete_todo, get_todo, list_todos, update_todo, StorageError,
    TodoError, STATUS_NO_CONTENT, STATUS_OK,
};
use todo_api::todo::{CreateTodo, Todo, UpdateTodo};

fn todo(id: &str, title: &str, completed: bool) -> Todo {
    Todo { id: id.to_string(), title: title.to_string(), completed }
}

fn is_v4_text(s: &str) -> bool {
    let c: Vec<char> = s.chars().collect();
    c.len() == 36
        && c.iter().enumerate().all(|(i, ch)| {
            if i == 8 || i == 13 || i == 18 || i == 23 {
                *ch == '-'
            } else {
                ch.is_ascii_digit() || ('a'..='f').contains(ch)
            }
        })
        && c[14] == '4'
        && "89ab".contains(c[19])
}

#[test]
fn create_buy_milk_then_get() {
    let created = create_todo(CreateTodo { title: "buy milk".to_string() });
    assert!(!created.id.is_empty());
    assert_eq!(created.title, "buy milk");
    assert!(!created.completed);
    let answered = confirm_write(created.clone(), Ok(1)).unwrap();
    assert_eq!(answered, created);
    let fetched = get_todo(Ok(Some(created.clone())));
    assert_eq!(fetched, Ok(created));
}

#[test]
fn created_id_is_hyphenated_lowercase_v4() {
    let created = create_todo(CreateTodo { title: "x".to_string() });
    assert!(is_v4_text(&created.id), "{}", created.id);
}

#[test]
fn create_fails_when_insert_fails() {
    let created = create_todo(CreateTodo { title: "buy milk".to_string() });
    let r = confirm_write(created, Err(StorageError));
    assert_eq!(r, Err(TodoError::Storage));
    assert_eq!(TodoError::Storage.status_code(), 500);
}

#[test]
fn list_after_two_creates_holds_both() {
    let a = create_todo(CreateTodo { title: "first".to_string() });
    let b = create_todo(CreateTodo { title: "second".to_string() });
    assert_ne!(a.id, b.id);
    let listed = list_todos(Ok(vec![b.clone(), a.clone()])).unwrap();
    assert_eq!(listed.len(), 2);
    assert!(listed.contains(&a));
    assert!(listed.contains(&b));
    assert_eq!(listed.iter().find(|t| t.id == a.id).unwrap().title, "first");
    assert_eq!(listed.iter().find(|t| t.id == b.id).unwrap().title, "second");
}

#[test]
fn list_of_empty_table_is_empty() {
    assert_eq!(list_todos(Ok(Vec::new())), Ok(Vec::new()));
}

#[test]
fn list_fails_on_storage_error() {
    assert_eq!(list_todos(Err(StorageError)), Err(TodoError::Storage));
}

#[test]
fn get_of_unknown_id_is_not_found() {
    let r = get_todo(Ok(None));
    assert_eq!(r, Err(TodoError::NotFound));
    assert_eq!(r.unwrap_err().status_code(), 404);
}

#[test]
fn get_fails_on_storage_error() {
    assert_eq!(get_todo(Err(StorageError)), Err(TodoError::Storage));
}

#[test]
fn update_of_unknown_id_is_not_found() {
    let r = update_todo(Ok(None), UpdateTodo { title: Some("new".to_string()) });
    assert_eq!(r, Err(TodoError::NotFound));
}

#[test]
fn update_replaces_title_only() {
    let before = todo("0b7e9d1c-6c55-4f3e-9a61-2d6a8f0c4b11", "old", true);
    let after = update_todo(Ok(Some(before.clone())), UpdateTodo { title: Some("new".to_string()) })
        .unwrap();
    assert_eq!(after.id, before.id);
    assert_eq!(after.title, "new");
    assert!(after.completed);
    let written = confirm_write(after.clone(), Ok(1));
    assert_eq!(written, Ok(after.clone()));
    assert_eq!(get_todo(Ok(Some(after.clone()))), Ok(after));
}

#[test]
fn update_with_empty_payload_keeps_todo() {
    let before = todo("0b7e9d1c-6c55-4f3e-9a61-2d6a8f0c4b11", "keep", false);
    let after = update_todo(Ok(Some(before.clone())), UpdateTodo { title: None });
    assert_eq!(after, Ok(before));
    assert_eq!(STATUS_OK, 200);
}

#[test]
fn update_fails_on_storage_error() {
    let r = update_todo(Err(StorageError), UpdateTodo { title: None });
    assert_eq!(r, Err(TodoError::Storage));
    let t = todo("a", "b", false);
    assert_eq!(confirm_write(t, Err(StorageError)), Err(TodoError::Storage));
}

#[test]
fn delete_of_one_row_succeeds_then_not_found() {
    assert_eq!(delete_todo(Ok(1)), Ok(()));
    assert_eq!(STATUS_NO_CONTENT, 204);
    assert_eq!(get_todo(Ok(None)), Err(TodoError::NotFound));
    assert_eq!(delete_todo(Ok(0)), Err(TodoError::NotFound));
}

#[test]
fn delete_of_many_rows_is_not_found() {
    assert_eq!(delete_todo(Ok(2)), Err(TodoError::NotFound));
}

#[test]
fn delete_fails_on_storage_error() {
    let r = delete_todo(Err(StorageError));
    assert_eq!(r, Err(TodoError::Storage));
    assert_eq!(r.unwrap_err().status_code(), 500);
}

#[test]
fn many_creates_give_distinct_ids() {
    let mut seen = HashSet::new();
    for i in 0..200 {
        let t = create_todo(CreateTodo { title: format!("task {}", i) });
        assert!(seen.insert(t.id));
    }
    assert_eq!(seen.len(), 200);
}
