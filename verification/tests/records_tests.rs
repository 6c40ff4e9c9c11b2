use todo_app::hashing::hash_password;
use todo_app::model::Todo;
use todo_app::records::{
    collect_todos, credentials, insert_values, row_to_todo, row_to_user, update_values, TodoRow,
};

fn row(id: i64, name: &str) -> TodoRow {
    TodoRow {
        id,
        user_id: 2,
        name: name.to_string(),
        description: None,
        status: "PENDING".to_string(),
        deadline: Some("2024-01-01".to_string()),
    }
}

#[test]
fn row_to_todo_keeps_columns() {
    let t = row_to_todo(row(4, "Call mum"));
    assert_eq!(t.id, Some(4));
    assert_eq!(t.user_id, 2);
    assert_eq!(t.name, "Call mum");
    assert_eq!(t.description, None);
    assert_eq!(t.status, "PENDING");
    assert_eq!(t.deadline, Some("2024-01-01".to_string()));
}

#[test]
fn row_to_user_keeps_columns() {
    let u = row_to_user(9, "bob".to_string(), "abc".to_string());
    assert_eq!(u.id, Some(9));
    assert_eq!(u.name, "bob");
    assert_eq!(u.password, "abc");
}

#[test]
fn collect_all_rows_in_order() {
    let rows: Vec<Result<TodoRow, String>> = vec![Ok(row(1, "a")), Ok(row(2, "b")), Ok(row(3, "c"))];
    let todos = collect_todos(rows).unwrap();
    let names: Vec<&str> = todos.iter().map(|t| t.name.as_str()).collect();
    assert_eq!(names, vec!["a", "b", "c"]);
    assert_eq!(todos[2].id, Some(3));
}

#[test]
fn collect_stops_at_first_error() {
    let rows: Vec<Result<TodoRow, String>> =
        vec![Ok(row(1, "a")), Err("bad type".to_string()), Err("later".to_string())];
    assert_eq!(collect_todos(rows).err(), Some("bad type".to_string()));
}

#[test]
fn collect_of_no_rows_is_empty() {
    let rows: Vec<Result<TodoRow, String>> = vec![];
    assert_eq!(collect_todos(rows).unwrap().len(), 0);
}

#[test]
fn credentials_hash_the_password() {
    let c = credentials("alice", "wonderland");
    assert_eq!(c.name, "alice");
    assert_eq!(c.password_hash, hash_password("wonderland"));
    assert_ne!(c.password_hash, "wonderland");
}

#[test]
fn insert_then_read_gives_the_item_back() {
    let t = Todo::new_pending(2, "Plan trip".to_string(), "june".to_string());
    let v = insert_values(&t);
    let read = row_to_todo(TodoRow {
        id: 11,
        user_id: v.user_id,
        name: v.name,
        description: v.description,
        status: v.status,
        deadline: v.deadline,
    });
    assert_eq!(read.id, Some(11));
    assert_eq!(read.user_id, t.user_id);
    assert_eq!(read.name, t.name);
    assert_eq!(read.description, t.description);
    assert_eq!(read.status, t.status);
    assert_eq!(read.deadline, t.deadline);
}

#[test]
fn update_values_select_by_id() {
    let mut t = row_to_todo(row(5, "x"));
    t.name = "y".to_string();
    let v = update_values(&t);
    assert_eq!(v.id, Some(5));
    assert_eq!(v.name, "y");
    assert_eq!(v.status, "PENDING");
    assert_eq!(v.description, None);
    assert_eq!(v.deadline, Some("2024-01-01".to_string()));
}
