use todo_service::service::Service;
use todo_service::todo::{CreateTodo, Pagination, UpdateTodo};

fn pagination(offset: Option<usize>, limit: Option<usize>) -> Pagination {
    Pagination { offset, limit }
}

#[test]
fn scenario_create_list_update_delete_delete() {
    let mut service = Service::new(5, 3000);

    let created = service
        .todos_create(CreateTodo { title: "buy milk".to_string() })
        .expect("create should succeed");
    assert_eq!(created.0, 201);
    assert_eq!(created.1, 1);

    let rows = service
        .todos_index(pagination(None, None))
        .expect("list should succeed");
    assert_eq!(rows.len(), 1);
    assert_eq!(rows[0].id, 1);
    assert_eq!(rows[0].title, "buy milk");
    assert!(!rows[0].completed);

    let updated = service
        .todos_update(1, UpdateTodo { title: None, completed: Some(true) })
        .expect("update should succeed");
    assert_eq!(updated.id, 1);
    assert_eq!(updated.title, "buy milk");
    assert!(updated.completed);

    let first_delete = service.todos_delete(1).expect("delete should succeed");
    assert_eq!(first_delete, 200);

    let second_delete = service.todos_delete(1).expect("delete should succeed");
    assert_eq!(second_delete, 404);
}

#[test]
fn probe_routes_answer_the_probe() {
    let mut service = Service::new(1, 3000);
    let via_pool = service
        .using_connection_pool_extractor()
        .expect("probe through the pool should succeed");
    assert_eq!(via_pool, "hello world from pg");

    let via_extractor = service
        .using_connection_extractor()
        .expect("probe through the extractor should succeed");
    assert_eq!(via_extractor, "hello world from pg");
}

#[test]
fn probe_routes_release_their_connection() {
    let mut service = Service::new(1, 3000);
    for _ in 0..3 {
        assert!(service.using_connection_pool_extractor().is_ok());
        assert!(service.using_connection_extractor().is_ok());
    }
}

#[test]
fn exhausted_pool_turns_every_route_into_internal_error() {
    let mut service = Service::new(0, 3000);

    let probe = service.using_connection_pool_extractor();
    let err = probe.unwrap_err();
    assert_eq!(err.0, 500);
    assert_eq!(err.1, "timed out while waiting for a pool connection");

    let probe = service.using_connection_extractor();
    assert_eq!(probe.unwrap_err().0, 500);

    let listed = service.todos_index(pagination(None, None));
    assert_eq!(listed.unwrap_err().0, 500);

    let created = service.todos_create(CreateTodo { title: "t".to_string() });
    assert_eq!(created.unwrap_err().0, 500);

    let updated = service.todos_update(1, UpdateTodo { title: None, completed: None });
    assert_eq!(updated.unwrap_err().0, 500);

    let deleted = service.todos_delete(1);
    assert_eq!(deleted.unwrap_err().0, 500);
}

#[test]
fn update_of_missing_row_is_internal_error_not_404() {
    let mut service = Service::new(2, 3000);
    let err = service
        .todos_update(7, UpdateTodo { title: Some("x".to_string()), completed: None })
        .unwrap_err();
    assert_eq!(err.0, 500);
}

#[test]
fn delete_of_never_created_id_is_404_not_500() {
    let mut service = Service::new(2, 3000);
    let status = service.todos_delete(42).expect("delete itself succeeds");
    assert_eq!(status, 404);
}

#[test]
fn index_applies_offset_and_limit_over_id_order() {
    let mut service = Service::new(2, 3000);
    for title in ["a", "b", "c", "d", "e"] {
        service
            .todos_create(CreateTodo { title: title.to_string() })
            .expect("create should succeed");
    }

    let all = service.todos_index(pagination(None, None)).unwrap();
    let ids: Vec<i32> = all.iter().map(|t| t.id).collect();
    assert_eq!(ids, vec![1, 2, 3, 4, 5]);

    let windowed = service.todos_index(pagination(Some(1), Some(2))).unwrap();
    let ids: Vec<i32> = windowed.iter().map(|t| t.id).collect();
    assert_eq!(ids, vec![2, 3]);
    assert_eq!(windowed[0].title, "b");
    assert_eq!(windowed[1].title, "c");

    let beyond = service.todos_index(pagination(Some(5), None)).unwrap();
    assert!(beyond.is_empty());

    let clipped = service.todos_index(pagination(Some(3), Some(10))).unwrap();
    let ids: Vec<i32> = clipped.iter().map(|t| t.id).collect();
    assert_eq!(ids, vec![4, 5]);

    let none_taken = service.todos_index(pagination(None, Some(0))).unwrap();
    assert!(none_taken.is_empty());
}

#[test]
fn ids_are_not_reused_after_a_delete() {
    let mut service = Service::new(2, 3000);
    service.todos_create(CreateTodo { title: "a".to_string() }).unwrap();
    service.todos_create(CreateTodo { title: "b".to_string() }).unwrap();
    assert_eq!(service.todos_delete(2).unwrap(), 200);
    let created = service.todos_create(CreateTodo { title: "c".to_string() }).unwrap();
    assert_eq!(created.1, 3);
}
