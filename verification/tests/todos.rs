use todos::{todos_create, todos_list, CreateStatus, Todo, TodoListOptions, BODY_LIMIT};

fn todo(id: u64, text: &str, completed: bool) -> Todo {
    Todo { id, text: text.to_string(), completed }
}

fn ids(list: &[Todo]) -> Vec<u64> {
    list.iter().map(|t| t.id).collect()
}

fn store_of(n: u64) -> Vec<Todo> {
    let mut db = Vec::new();
    for id in 1..=n {
        assert_eq!(todos_create(&mut db, todo(id, "item", id % 2 == 0)), CreateStatus::Created);
    }
    db
}

fn opts(offset: Option<usize>, limit: Option<usize>) -> TodoListOptions {
    TodoListOptions { offset, limit }
}

#[test]
fn create_into_empty_store_is_created() {
    let mut db = Vec::new();
    let status = todos_create(&mut db, todo(7, "write tests", false));
    assert_eq!(status, CreateStatus::Created);
    assert_eq!(status.status_code(), 201);
    assert_eq!(db.len(), 1);
    assert_eq!(db[0].id, 7);
    assert_eq!(db[0].text, "write tests");
    assert!(!db[0].completed);
}

#[test]
fn create_with_existing_id_is_bad_request_and_changes_nothing() {
    let mut db = store_of(3);
    let status = todos_create(&mut db, todo(2, "other text", true));
    assert_eq!(status, CreateStatus::BadRequest);
    assert_eq!(status.status_code(), 400);
    assert_eq!(ids(&db), vec![1, 2, 3]);
    assert_eq!(db[1].text, "item");
    assert!(db[1].completed);
}

#[test]
fn created_todos_keep_their_order() {
    let mut db = Vec::new();
    for id in [5u64, 1, 9] {
        assert_eq!(todos_create(&mut db, todo(id, "x", false)), CreateStatus::Created);
    }
    assert_eq!(ids(&db), vec![5, 1, 9]);
}

#[test]
fn ids_stay_unique_over_many_requests() {
    let mut db = Vec::new();
    for id in [1u64, 2, 1, 3, 2, 3, 4, 1] {
        todos_create(&mut db, todo(id, "x", false));
    }
    assert_eq!(ids(&db), vec![1, 2, 3, 4]);
}

#[test]
fn listing_without_options_returns_everything() {
    let db = store_of(4);
    let res = todos_list(&db, &opts(None, None));
    assert_eq!(ids(&res), vec![1, 2, 3, 4]);
    assert_eq!(res[3].text, "item");
    assert!(res[3].completed);
}

#[test]
fn listing_on_empty_store_is_empty() {
    let db: Vec<Todo> = Vec::new();
    assert!(todos_list(&db, &opts(None, None)).is_empty());
    assert!(todos_list(&db, &opts(Some(3), Some(2))).is_empty());
}

#[test]
fn listing_with_offset_skips() {
    let db = store_of(5);
    assert_eq!(ids(&todos_list(&db, &opts(Some(2), None))), vec![3, 4, 5]);
}

#[test]
fn listing_with_limit_takes() {
    let db = store_of(5);
    assert_eq!(ids(&todos_list(&db, &opts(None, Some(2)))), vec![1, 2]);
}

#[test]
fn listing_with_offset_and_limit() {
    let db = store_of(6);
    assert_eq!(ids(&todos_list(&db, &opts(Some(1), Some(3)))), vec![2, 3, 4]);
}

#[test]
fn listing_past_the_end_is_empty() {
    let db = store_of(3);
    assert!(todos_list(&db, &opts(Some(3), None)).is_empty());
    assert!(todos_list(&db, &opts(Some(10), Some(1))).is_empty());
    assert!(todos_list(&db, &opts(Some(usize::MAX), Some(usize::MAX))).is_empty());
}

#[test]
fn listing_limit_larger_than_rest_returns_rest() {
    let db = store_of(4);
    assert_eq!(ids(&todos_list(&db, &opts(Some(2), Some(100)))), vec![3, 4]);
    assert_eq!(ids(&todos_list(&db, &opts(Some(1), Some(usize::MAX)))), vec![2, 3, 4]);
}

#[test]
fn listing_with_zero_limit_is_empty() {
    let db = store_of(4);
    assert!(todos_list(&db, &opts(Some(1), Some(0))).is_empty());
}

#[test]
fn listing_leaves_store_unchanged() {
    let db = store_of(3);
    let _ = todos_list(&db, &opts(Some(1), Some(1)));
    assert_eq!(ids(&db), vec![1, 2, 3]);
}

#[test]
fn created_todo_is_listed_last() {
    let mut db = store_of(2);
    assert_eq!(todos_create(&mut db, todo(42, "answer", true)), CreateStatus::Created);
    let all = todos_list(&db, &opts(None, None));
    assert_eq!(all.last().unwrap().id, 42);
    assert_eq!(all.last().unwrap().text, "answer");
    let only = todos_list(&db, &opts(Some(2), Some(1)));
    assert_eq!(ids(&only), vec![42]);
}

#[test]
fn second_create_with_same_id_is_refused() {
    let mut db = Vec::new();
    assert_eq!(todos_create(&mut db, todo(3, "first", false)), CreateStatus::Created);
    assert_eq!(todos_create(&mut db, todo(3, "second", true)), CreateStatus::BadRequest);
    assert_eq!(db.len(), 1);
    assert_eq!(db[0].text, "first");
}

#[test]
fn consecutive_pages_concatenate() {
    let db = store_of(7);
    let mut joined = todos_list(&db, &opts(Some(1), Some(2)));
    joined.extend(todos_list(&db, &opts(Some(3), Some(3))));
    assert_eq!(ids(&joined), ids(&todos_list(&db, &opts(Some(1), Some(5)))));
    assert_eq!(ids(&joined), vec![2, 3, 4, 5, 6]);
}

#[test]
fn clone_keeps_every_field() {
    let t = todo(9, "copy me", true);
    let c = t.clone();
    assert_eq!(c.id, 9);
    assert_eq!(c.text, "copy me");
    assert!(c.completed);
}

#[test]
fn body_limit_is_sixteen_kib() {
    assert_eq!(BODY_LIMIT, 16384);
}
