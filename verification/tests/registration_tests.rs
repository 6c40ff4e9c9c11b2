use todo_app::model::AuthState;
use todo_app::registration::{
    RegistrationAction, RegistrationEvent, RegistrationForm, RegistrationReply,
};
use todo_app::route::Route;

fn filled(user: &str, pass: &str, repeat: &str) -> RegistrationForm {
    let mut f = RegistrationForm::new();
    let mut auth = AuthState::default();
    f.step(&mut auth, RegistrationEvent::UsernameInput(user.to_string()));
    f.step(&mut auth, RegistrationEvent::PasswordInput(pass.to_string()));
    f.step(&mut auth, RegistrationEvent::RepeatPasswordInput(repeat.to_string()));
    f
}

fn click(f: &mut RegistrationForm) -> RegistrationAction {
    let mut auth = AuthState::default();
    f.step(&mut auth, RegistrationEvent::RegisterClicked)
}

#[test]
fn registration_checks_fields_in_order() {
    let mut f = filled("", "", "x");
    assert!(matches!(click(&mut f), RegistrationAction::Nothing));
    assert_eq!(f.error_message, "Username cannot be empty");
    let mut f = filled("bob", "", "x");
    assert!(matches!(click(&mut f), RegistrationAction::Nothing));
    assert_eq!(f.error_message, "Password cannot be empty");
    let mut f = filled("bob", "pw1", "pw2");
    assert!(matches!(click(&mut f), RegistrationAction::Nothing));
    assert_eq!(f.error_message, "Passwords do not match");
}

#[test]
fn matching_passwords_ask_to_register() {
    let mut f = filled("bob", "pw", "pw");
    match click(&mut f) {
        RegistrationAction::Register { username, password } => {
            assert_eq!(username, "bob");
            assert_eq!(password, "pw");
        }
        _ => panic!("expected a registration"),
    }
    assert_eq!(f.error_message, "");
}

#[test]
fn stored_user_is_logged_in_and_sent_to_login() {
    let mut f = filled("bob", "pw", "pw");
    let mut auth = AuthState::default();
    let a = f.step(&mut auth, RegistrationEvent::Reply(RegistrationReply::Registered(8)));
    assert!(matches!(a, RegistrationAction::Navigate(Route::Login)));
    assert_eq!(auth.user_id, Some(8));
    assert_eq!(auth.username, Some("bob".to_string()));
}

#[test]
fn failed_registration_shows_the_error() {
    let mut f = filled("bob", "pw", "pw");
    let mut auth = AuthState::default();
    f.step(
        &mut auth,
        RegistrationEvent::Reply(RegistrationReply::Failed(
            "UNIQUE constraint failed: users.name".to_string(),
        )),
    );
    assert_eq!(f.error_message, "Registration failed: UNIQUE constraint failed: users.name");
    f.step(&mut auth, RegistrationEvent::Reply(RegistrationReply::Unreachable));
    assert_eq!(f.error_message, "Could not connect to database");
    assert_eq!(auth.user_id, None);
}

#[test]
fn go_back_returns_to_login() {
    let mut f = RegistrationForm::new();
    let mut auth = AuthState::default();
    assert!(matches!(
        f.step(&mut auth, RegistrationEvent::GoBackClicked),
        RegistrationAction::Navigate(Route::Login)
    ));
}
