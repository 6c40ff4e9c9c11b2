use todo_app::login::{LoginAction, LoginEvent, LoginForm, LoginReply};
use todo_app::model::{AuthState, User};
use todo_app::route::Route;

fn filled(user: &str, pass: &str) -> LoginForm {
    let mut f = LoginForm::new();
    let mut auth = AuthState::default();
    f.step(&mut auth, LoginEvent::UsernameInput(user.to_string()));
    f.step(&mut auth, LoginEvent::PasswordInput(pass.to_string()));
    f
}

#[test]
fn new_login_form_is_empty() {
    let f = LoginForm::new();
    assert_eq!(f.username, "");
    assert_eq!(f.password, "");
    assert_eq!(f.error_message, "");
}

#[test]
fn empty_username_is_rejected() {
    let mut f = filled("", "pw");
    let mut auth = AuthState::default();
    let a = f.step(&mut auth, LoginEvent::LoginClicked);
    assert!(matches!(a, LoginAction::Nothing));
    assert_eq!(f.error_message, "Username cannot be empty");
}

#[test]
fn empty_password_is_rejected() {
    let mut f = filled("ann", "");
    let mut auth = AuthState::default();
    let a = f.step(&mut auth, LoginEvent::LoginClicked);
    assert!(matches!(a, LoginAction::Nothing));
    assert_eq!(f.error_message, "Password cannot be empty");
}

#[test]
fn filled_form_asks_to_authenticate() {
    let mut f = filled("ann", "pw");
    let mut auth = AuthState::default();
    match f.step(&mut auth, LoginEvent::LoginClicked) {
        LoginAction::Authenticate { username, password } => {
            assert_eq!(username, "ann");
            assert_eq!(password, "pw");
        }
        _ => panic!("expected an authentication"),
    }
    assert_eq!(f.error_message, "");
    assert_eq!(auth.user_id, None);
}

#[test]
fn found_user_logs_in_and_opens_todos() {
    let mut f = filled("ann", "pw");
    let mut auth = AuthState::default();
    let user = User { id: Some(42), name: "ann".to_string(), password: "hash".to_string() };
    let a = f.step(&mut auth, LoginEvent::Reply(LoginReply::Found(user)));
    assert!(matches!(a, LoginAction::Navigate(Route::Todos)));
    assert_eq!(auth.user_id, Some(42));
    assert_eq!(auth.username, Some("ann".to_string()));
}

#[test]
fn failed_replies_set_their_messages() {
    let mut auth = AuthState::default();
    let mut f = filled("ann", "pw");
    assert!(matches!(f.step(&mut auth, LoginEvent::Reply(LoginReply::NotFound)), LoginAction::Nothing));
    assert_eq!(f.error_message, "Invalid username or password");
    f.step(&mut auth, LoginEvent::Reply(LoginReply::QueryFailed));
    assert_eq!(f.error_message, "An error occurred during login");
    f.step(&mut auth, LoginEvent::Reply(LoginReply::Unreachable));
    assert_eq!(f.error_message, "Could not connect to database");
    assert_eq!(auth.user_id, None);
    assert_eq!(auth.username, None);
}

#[test]
fn register_button_opens_registration() {
    let mut f = LoginForm::new();
    let mut auth = AuthState::default();
    assert!(matches!(
        f.step(&mut auth, LoginEvent::RegisterClicked),
        LoginAction::Navigate(Route::Registration)
    ));
}
