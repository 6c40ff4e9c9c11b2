use vstd::prelude::*;
use crate::login::{msg_password_empty, msg_unreachable, msg_username_empty};
use crate::model::{AuthState, AuthView};
use crate::route::Route;

verus! {

/// What the registration screen holds: its three input fields and the error
/// shown.
pub struct RegistrationForm {
    pub username: String,
    pub password: String,
    pub repeat_password: String,
    pub error_message: String,
}

/// The registration screen with its texts as character sequences.
pub struct RegistrationFormView {
    pub username: Seq<char>,
    pub password: Seq<char>,
    pub repeat_password: Seq<char>,
    pub error_message: Seq<char>,
}

impl View for RegistrationForm {
    type V = RegistrationFormView;

    open spec fn view(&self) -> RegistrationFormView {
        RegistrationFormView {
            username: self.username@,
            password: self.password@,
            repeat_password: self.repeat_password@,
            error_message: self.error_message@,
        }
    }
}

/// What the database answered to a registration.
pub enum RegistrationReply {
    /// The user was stored under this id.
    Registered(i64),
    /// Storing failed; the text describes the error.
    Failed(String),
    /// The database could not be opened.
    Unreachable,
}

/// What happens on the registration screen.
pub enum RegistrationEvent {
    UsernameInput(String),
    PasswordInput(String),
    RepeatPasswordInput(String),
    RegisterClicked,
    GoBackClicked,
    Reply(RegistrationReply),
}

/// What the screen asks of its surroundings after an event.
pub enum RegistrationAction {
    Nothing,
    /// Store a new user with these credentials, then hand back the reply.
    Register { username: String, password: String },
    /// Go to another screen.
    Navigate(Route),
}

/// An action with its texts as character sequences.
pub enum RegistrationActionView {
    Nothing,
    Register { username: Seq<char>, password: Seq<char> },
    Navigate(Route),
}

impl View for RegistrationAction {
    type V = RegistrationActionView;

    open spec fn view(&self) -> RegistrationActionView {
        match self {
            RegistrationAction::Nothing => RegistrationActionView::Nothing,
            RegistrationAction::Register { username, password } => RegistrationActionView::Register {
                username: username@,
                password: password@,
            },
            RegistrationAction::Navigate(r) => RegistrationActionView::Navigate(*r),
        }
    }
}

/// The error texts that only the registration screen shows.
pub open spec fn msg_passwords_differ() -> Seq<char> {
    "Passwords do not match"@
}

pub open spec fn msg_registration_failed(detail: Seq<char>) -> Seq<char> {
    "Registration failed: "@ + detail
}

/// What an event does to the registration screen and to the shared login
/// state, and what it asks for next.
pub open spec fn registration_transition(
    form: RegistrationFormView,
    auth: AuthView,
    event: RegistrationEvent,
) -> (RegistrationFormView, AuthView, RegistrationActionView) {
    match event {
        RegistrationEvent::UsernameInput(v) => (
            RegistrationFormView { username: v@, ..form },
            auth,
            RegistrationActionView::Nothing,
        ),
        RegistrationEvent::PasswordInput(v) => (
            RegistrationFormView { password: v@, ..form },
            auth,
            RegistrationActionView::Nothing,
        ),
        RegistrationEvent::RepeatPasswordInput(v) => (
            RegistrationFormView { repeat_password: v@, ..form },
            auth,
            RegistrationActionView::Nothing,
        ),
        RegistrationEvent::RegisterClicked => if form.username.len() == 0 {
            (
                RegistrationFormView { error_message: msg_username_empty(), ..form },
                auth,
                RegistrationActionView::Nothing,
            )
        } else if form.password.len() == 0 {
            (
                RegistrationFormView { error_message: msg_password_empty(), ..form },
                auth,
                RegistrationActionView::Nothing,
            )
        } else if form.password != form.repeat_password {
            (
                RegistrationFormView { error_message: msg_passwords_differ(), ..form },
                auth,
                RegistrationActionView::Nothing,
            )
        } else {
            (
                form,
                auth,
                RegistrationActionView::Register {
                    username: form.username,
                    password: form.password,
                },
            )
        },
        RegistrationEvent::GoBackClicked => (
            form,
            auth,
            RegistrationActionView::Navigate(Route::Login),
        ),
        RegistrationEvent::Reply(reply) => match reply {
            RegistrationReply::Registered(id) => (
                form,
                AuthView { user_id: Some(id), username: Some(form.username) },
                RegistrationActionView::Navigate(Route::Login),
            ),
            RegistrationReply::Failed(detail) => (
                RegistrationFormView { error_message: msg_registration_failed(detail@), ..form },
                auth,
                RegistrationActionView::Nothing,
            ),
            RegistrationReply::Unreachable => (
                RegistrationFormView { error_message: msg_unreachable(), ..form },
                auth,
                RegistrationActionView::Nothing,
            ),
        },
    }
}

impl RegistrationForm {
    /// An empty registration screen without an error.
    pub fn new() -> (form: RegistrationForm)
        ensures
            form@.username.len() == 0,
            form@.password.len() == 0,
            form@.repeat_password.len() == 0,
            form@.error_message.len() == 0,
    {
        RegistrationForm {
            username: String::new(),
            password: String::new(),
            repeat_password: String::new(),
            error_message: String::new(),
        }
    }

    /// Takes one event: updates the form and the shared login state and
    /// says what to do next.
    pub fn step(&mut self, auth: &mut AuthState, event: RegistrationEvent) -> (action:
        RegistrationAction)
        ensures
            (final(self)@, final(auth)@, action@) == registration_transition(
                old(self)@,
                old(auth)@,
                event,
            ),
    {
        match event {
            RegistrationEvent::UsernameInput(v) => {
                self.username = v;
                RegistrationAction::Nothing
            },
            RegistrationEvent::PasswordInput(v) => {
                self.password = v;
                RegistrationAction::Nothing
            },
            RegistrationEvent::RepeatPasswordInput(v) => {
                self.repeat_password = v;
                RegistrationAction::Nothing
            },
            RegistrationEvent::RegisterClicked => {
                if self.username.as_str().is_empty() {
                    self.error_message = String::from_str("Username cannot be empty");
                    RegistrationAction::Nothing
                } else if self.password.as_str().is_empty() {
                    self.error_message = String::from_str("Password cannot be empty");
                    RegistrationAction::Nothing
                } else if self.password != self.repeat_password {
                    self.error_message = String::from_str("Passwords do not match");
                    RegistrationAction::Nothing
                } else {
                    RegistrationAction::Register {
                        username: self.username.clone(),
                        password: self.password.clone(),
                    }
                }
            },
            RegistrationEvent::GoBackClicked => RegistrationAction::Navigate(Route::Login),
            RegistrationEvent::Reply(reply) => match reply {
                RegistrationReply::Registered(id) => {
                    auth.user_id = Some(id);
                    auth.username = Some(self.username.clone());
                    RegistrationAction::Navigate(Route::Login)
                },
                RegistrationReply::Failed(detail) => {
                    self.error_message = String::from_str("Registration failed: ").concat(
                        detail.as_str(),
                    );
                    RegistrationAction::Nothing
                },
                RegistrationReply::Unreachable => {
                    self.error_message = String::from_str("Could not connect to database");
                    RegistrationAction::Nothing
                },
            },
        }
    }
}

/// A registration is asked for exactly when the user name and the password
/// are filled in and the password was repeated correctly, and then with what
/// was typed.
pub proof fn lemma_register_conditions(form: RegistrationFormView, auth: AuthView)
    ensures
        ({
            let (f, a, act) = registration_transition(
                form,
                auth,
                RegistrationEvent::RegisterClicked,
            );
            &&& a == auth
            &&& (act is Register) <==> (form.username.len() != 0 && form.password.len() != 0
                && form.password == form.repeat_password)
            &&& act is Register ==> act == RegistrationActionView::Register {
                username: form.username,
                password: form.password,
            } && f == form
            &&& !(act is Register) ==> act == RegistrationActionView::Nothing
        }),
{
}

/// A stored registration logs the new user in under the typed name and goes
/// back to the login screen; every other event leaves the login state as it
/// was.
pub proof fn lemma_registration_state_changes_only_on_success(
    form: RegistrationFormView,
    auth: AuthView,
    event: RegistrationEvent,
)
    ensures
        ({
            let (f, a, act) = registration_transition(form, auth, event);
            match event {
                RegistrationEvent::Reply(RegistrationReply::Registered(id)) => {
                    &&& a == AuthView { user_id: Some(id), username: Some(form.username) }
                    &&& act == RegistrationActionView::Navigate(Route::Login)
                    &&& f == form
                },
                _ => a == auth,
            }
        }),
{
}

/// Typing into a field replaces it with what was typed, whatever it held
/// before, and changes nothing else; the last input is what counts.
pub proof fn lemma_registration_inputs_replace(
    form: RegistrationFormView,
    auth: AuthView,
    a: String,
    b: String,
)
    ensures
        ({
            let (f, x, act) = registration_transition(form, auth, RegistrationEvent::UsernameInput(a));
            &&& f == (RegistrationFormView { username: a@, ..form })
            &&& x == auth
            &&& act == RegistrationActionView::Nothing
        }),
        ({
            let (f, x, act) = registration_transition(form, auth, RegistrationEvent::PasswordInput(a));
            &&& f == (RegistrationFormView { password: a@, ..form })
            &&& x == auth
            &&& act == RegistrationActionView::Nothing
        }),
        ({
            let (f, x, act) = registration_transition(
                form,
                auth,
                RegistrationEvent::RepeatPasswordInput(a),
            );
            &&& f == (RegistrationFormView { repeat_password: a@, ..form })
            &&& x == auth
            &&& act == RegistrationActionView::Nothing
        }),
        registration_transition(
            registration_transition(form, auth, RegistrationEvent::UsernameInput(a)).0,
            auth,
            RegistrationEvent::UsernameInput(b),
        ).0.username == b@,
{
}

} // verus!
