use todo_app::route::{same_text, Route};

#[test]
fn route_paths() {
    assert_eq!(Route::Login.path(), "/");
    assert_eq!(Route::Todos.path(), "/todos");
    assert_eq!(Route::Registration.path(), "/registration");
}

#[test]
fn route_from_path() {
    assert_eq!(Route::from_path("/"), Some(Route::Login));
    assert_eq!(Route::from_path("/todos"), Some(Route::Todos));
    assert_eq!(Route::from_path("/registration"), Some(Route::Registration));
    assert_eq!(Route::from_path("/todo"), None);
    assert_eq!(Route::from_path(""), None);
    assert_eq!(Route::from_path("/Todos"), None);
}

#[test]
fn route_round_trip() {
    for r in [Route::Login, Route::Todos, Route::Registration] {
        assert_eq!(Route::from_path(r.path()), Some(r));
    }
}

#[test]
fn same_text_compares_characters() {
    assert!(same_text("abc", "abc"));
    assert!(!same_text("abc", "abd"));
    assert!(!same_text("abc", "ab"));
    assert!(same_text("", ""));
    assert!(same_text("ünï", "ünï"));
}
