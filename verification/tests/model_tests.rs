use todo_app::model::{completed, pending, AuthState, Todo};

fn item(status: &str) -> Todo {
    Todo {
        id: Some(7),
        user_id: 3,
        name: "Buy milk".to_string(),
        description: Some("two litres".to_string()),
        status: status.to_string(),
        deadline: None,
    }
}

#[test]
fn status_texts() {
    assert_eq!(pending(), "PENDING");
    assert_eq!(completed(), "COMPLETED");
}

#[test]
fn new_pending_item() {
    let t = Todo::new_pending(5, "Write report".to_string(), "".to_string());
    assert_eq!(t.id, None);
    assert_eq!(t.user_id, 5);
    assert_eq!(t.name, "Write report");
    assert_eq!(t.description, Some(String::new()));
    assert_eq!(t.status, "PENDING");
    assert_eq!(t.deadline, None);
}

#[test]
fn is_completed_only_for_exact_text() {
    assert!(item("COMPLETED").is_completed());
    assert!(!item("PENDING").is_completed());
    assert!(!item("completed").is_completed());
}

#[test]
fn toggle_switches_status_and_keeps_the_rest() {
    let done = item("PENDING").toggled();
    assert_eq!(done.status, "COMPLETED");
    assert_eq!(done.id, Some(7));
    assert_eq!(done.user_id, 3);
    assert_eq!(done.name, "Buy milk");
    assert_eq!(done.description, Some("two litres".to_string()));
    assert_eq!(item("COMPLETED").toggled().status, "PENDING");
    // Any other status counts as not completed.
    assert_eq!(item("ARCHIVED").toggled().status, "COMPLETED");
}

#[test]
fn toggle_twice_restores_pending_and_completed() {
    assert_eq!(item("PENDING").toggled().toggled().status, "PENDING");
    assert_eq!(item("COMPLETED").toggled().toggled().status, "COMPLETED");
    // Not for other texts.
    assert_eq!(item("ARCHIVED").toggled().toggled().status, "PENDING");
}

#[test]
fn list_key_defaults_to_zero() {
    assert_eq!(item("PENDING").list_key(), 7);
    let mut t = item("PENDING");
    t.id = None;
    assert_eq!(t.list_key(), 0);
}

#[test]
fn clone_copies_every_field() {
    let t = item("PENDING");
    let c = t.clone();
    assert_eq!(c.id, t.id);
    assert_eq!(c.name, t.name);
    assert_eq!(c.description, t.description);
    assert_eq!(c.status, t.status);
    assert_eq!(c.deadline, t.deadline);
}

#[test]
fn auth_state_default_is_logged_out() {
    let a = AuthState::default();
    assert_eq!(a.user_id, None);
    assert_eq!(a.username, None);
    assert!(!a.is_logged_in());
    let b = AuthState { user_id: Some(1), username: Some("ann".to_string()) };
    assert!(b.is_logged_in());
    let c = b.clone();
    assert_eq!(c.user_id, Some(1));
    assert_eq!(c.username, Some("ann".to_string()));
}
