use todo_service::status::ServiceError;
use todo_service::store::{window_rows, TodoStore};
use todo_service::todo::{apply_update, Pagination, Todo, UpdateTodo};

fn todo(id: i32, title: &str, completed: bool) -> Todo {
    Todo { id, title: title.to_string(), completed }
}

#[test]
fn create_assigns_ascending_ids_and_defaults_completed_to_false() {
    let mut store = TodoStore::new();
    assert_eq!(store.create("first".to_string()).unwrap(), 1);
    assert_eq!(store.create("second".to_string()).unwrap(), 2);

    let rows = store.list(&Pagination { offset: None, limit: None });
    assert_eq!(rows.len(), 2);
    assert_eq!(rows[0].id, 1);
    assert_eq!(rows[0].title, "first");
    assert!(!rows[0].completed);
    assert_eq!(rows[1].id, 2);
    assert_eq!(rows[1].title, "second");
    assert!(!rows[1].completed);
}

#[test]
fn create_fails_once_the_id_space_is_spent() {
    let mut store = TodoStore::starting_at(i32::MAX - 1);
    assert_eq!(store.create("last one".to_string()).unwrap(), i32::MAX - 1);
    let err = store.create("one too many".to_string()).unwrap_err();
    assert_eq!(err, ServiceError::StoreFailure);
}

#[test]
fn update_with_only_completed_leaves_title_unchanged() {
    let mut store = TodoStore::new();
    store.create("keep me".to_string()).unwrap();
    let updated = store
        .update(1, UpdateTodo { title: None, completed: Some(true) })
        .unwrap();
    assert_eq!(updated.title, "keep me");
    assert!(updated.completed);
}

#[test]
fn update_with_only_title_leaves_completed_unchanged() {
    let mut store = TodoStore::new();
    store.create("old title".to_string()).unwrap();
    store.update(1, UpdateTodo { title: None, completed: Some(true) }).unwrap();
    let updated = store
        .update(1, UpdateTodo { title: Some("new title".to_string()), completed: None })
        .unwrap();
    assert_eq!(updated.title, "new title");
    assert!(updated.completed);
}

#[test]
fn update_with_neither_field_leaves_the_row_identical() {
    let mut store = TodoStore::new();
    store.create("as it was".to_string()).unwrap();
    let updated = store
        .update(1, UpdateTodo { title: None, completed: None })
        .unwrap();
    assert_eq!(updated.id, 1);
    assert_eq!(updated.title, "as it was");
    assert!(!updated.completed);

    let rows = store.list(&Pagination { offset: None, limit: None });
    assert_eq!(rows.len(), 1);
    assert_eq!(rows[0].id, 1);
    assert_eq!(rows[0].title, "as it was");
    assert!(!rows[0].completed);
}

#[test]
fn update_of_missing_row_is_a_store_failure() {
    let mut store = TodoStore::new();
    let err = store
        .update(9, UpdateTodo { title: None, completed: None })
        .unwrap_err();
    assert_eq!(err, ServiceError::StoreFailure);
}

#[test]
fn update_touches_only_the_named_row() {
    let mut store = TodoStore::new();
    store.create("a".to_string()).unwrap();
    store.create("b".to_string()).unwrap();
    store.create("c".to_string()).unwrap();
    store
        .update(2, UpdateTodo { title: Some("b2".to_string()), completed: Some(true) })
        .unwrap();

    let rows = store.list(&Pagination { offset: None, limit: None });
    assert_eq!(rows[0].title, "a");
    assert!(!rows[0].completed);
    assert_eq!(rows[1].title, "b2");
    assert!(rows[1].completed);
    assert_eq!(rows[2].title, "c");
    assert!(!rows[2].completed);
}

#[test]
fn delete_removes_exactly_the_named_row() {
    let mut store = TodoStore::new();
    store.create("a".to_string()).unwrap();
    store.create("b".to_string()).unwrap();
    store.create("c".to_string()).unwrap();

    assert!(store.delete(2));
    let rows = store.list(&Pagination { offset: None, limit: None });
    let ids: Vec<i32> = rows.iter().map(|t| t.id).collect();
    assert_eq!(ids, vec![1, 3]);

    assert!(!store.delete(2));
}

#[test]
fn delete_on_empty_store_reports_nothing_removed() {
    let mut store = TodoStore::new();
    assert!(!store.delete(1));
}

#[test]
fn window_rows_defaults_to_the_whole_sequence() {
    let rows = vec![todo(1, "a", false), todo(2, "b", true)];
    let out = window_rows(&rows, &Pagination { offset: None, limit: None });
    assert_eq!(out.len(), 2);
    assert_eq!(out[0].id, 1);
    assert_eq!(out[1].id, 2);
    assert!(out[1].completed);
}

#[test]
fn window_rows_clips_to_the_rows_that_exist() {
    let rows = vec![todo(1, "a", false), todo(2, "b", false), todo(3, "c", false)];

    let out = window_rows(&rows, &Pagination { offset: Some(1), limit: Some(1) });
    assert_eq!(out.len(), 1);
    assert_eq!(out[0].id, 2);

    let out = window_rows(&rows, &Pagination { offset: Some(2), limit: Some(5) });
    assert_eq!(out.len(), 1);
    assert_eq!(out[0].id, 3);

    let out = window_rows(&rows, &Pagination { offset: Some(3), limit: None });
    assert!(out.is_empty());

    let out = window_rows(&rows, &Pagination { offset: Some(100), limit: Some(100) });
    assert!(out.is_empty());
}

#[test]
fn apply_update_merges_in_place() {
    let mut row = todo(4, "before", false);
    apply_update(&mut row, UpdateTodo { title: Some("after".to_string()), completed: None });
    assert_eq!(row.id, 4);
    assert_eq!(row.title, "after");
    assert!(!row.completed);

    apply_update(&mut row, UpdateTodo { title: None, completed: Some(true) });
    assert_eq!(row.title, "after");
    assert!(row.completed);

    apply_update(&mut row, UpdateTodo { title: None, completed: None });
    assert_eq!(row.id, 4);
    assert_eq!(row.title, "after");
    assert!(row.completed);
}
