use vstd::prelude::*;
use crate::model::{AuthState, AuthView, User};
use crate::route::Route;

verus! {

/// What the login screen holds: the two input fields and the error shown.
pub struct LoginForm {
    pub username: String,
    pub password: String,
    pub error_message: String,
}

/// The login screen with its texts as character sequences.
pub struct LoginFormView {
    pub username: Seq<char>,
    pub password: Seq<char>,
    pub error_message: Seq<char>,
}

impl View for LoginForm {
    type V = LoginFormView;

    open spec fn view(&self) -> LoginFormView {
        LoginFormView {
            username: self.username@,
            password: self.password@,
            error_message: self.error_message@,
        }
    }
}

/// What the database answered to a login attempt.
pub enum LoginReply {
    /// A user with that name and password hash exists.
    Found(User),
    /// No such user.
    NotFound,
    /// The query failed.
    QueryFailed,
    /// The database could not be opened.
    Unreachable,
}

/// What happens on the login screen.
pub enum LoginEvent {
    UsernameInput(String),
    PasswordInput(String),
    LoginClicked,
    RegisterClicked,
    Reply(LoginReply),
}

/// What the screen asks of its surroundings after an event.
pub enum LoginAction {
    Nothing,
    /// Look the user up with these credentials, then hand back the reply.
    Authenticate { username: String, password: String },
    /// Go to another screen.
    Navigate(Route),
}

/// An action with its texts as character sequences.
pub enum LoginActionView {
    Nothing,
    Authenticate { username: Seq<char>, password: Seq<char> },
    Navigate(Route),
}

impl View for LoginAction {
    type V = LoginActionView;

    open spec fn view(&self) -> LoginActionView {
        match self {
            LoginAction::Nothing => LoginActionView::Nothing,
            LoginAction::Authenticate { username, password } => LoginActionView::Authenticate {
                username: username@,
                password: password@,
            },
            LoginAction::Navigate(r) => LoginActionView::Navigate(*r),
        }
    }
}

/// The error texts that the login screen shows.
pub open spec fn msg_username_empty() -> Seq<char> {
    "Username cannot be empty"@
}

pub open spec fn msg_password_empty() -> Seq<char> {
    "Password cannot be empty"@
}

pub open spec fn msg_invalid_login() -> Seq<char> {
    "Invalid username or password"@
}

pub open spec fn msg_login_failed() -> Seq<char> {
    "An error occurred during login"@
}

pub open spec fn msg_unreachable() -> Seq<char> {
    "Could not connect to database"@
}

/// What an event does to the login screen and to the shared login state,
/// and what it asks for next.
pub open spec fn login_transition(form: LoginFormView, auth: AuthView, event: LoginEvent) -> (
    LoginFormView,
    AuthView,
    LoginActionView,
) {
    match event {
        LoginEvent::UsernameInput(v) => (
            LoginFormView { username: v@, ..form },
            auth,
            LoginActionView::Nothing,
        ),
        LoginEvent::PasswordInput(v) => (
            LoginFormView { password: v@, ..form },
            auth,
            LoginActionView::Nothing,
        ),
        LoginEvent::LoginClicked => if form.username.len() == 0 {
            (
                LoginFormView { error_message: msg_username_empty(), ..form },
                auth,
                LoginActionView::Nothing,
            )
        } else if form.password.len() == 0 {
            (
                LoginFormView { error_message: msg_password_empty(), ..form },
                auth,
                LoginActionView::Nothing,
            )
        } else {
            (
                form,
                auth,
                LoginActionView::Authenticate { username: form.username, password: form.password },
            )
        },
        LoginEvent::RegisterClicked => (
            form,
            auth,
            LoginActionView::Navigate(Route::Registration),
        ),
        LoginEvent::Reply(reply) => match reply {
            LoginReply::Found(user) => (
                form,
                AuthView { user_id: user.id, username: Some(user.name@) },
                LoginActionView::Navigate(Route::Todos),
            ),
            LoginReply::NotFound => (
                LoginFormView { error_message: msg_invalid_login(), ..form },
                auth,
                LoginActionView::Nothing,
            ),
            LoginReply::QueryFailed => (
                LoginFormView { error_message: msg_login_failed(), ..form },
                auth,
                LoginActionView::Nothing,
            ),
            LoginReply::Unreachable => (
                LoginFormView { error_message: msg_unreachable(), ..form },
                auth,
                LoginActionView::Nothing,
            ),
        },
    }
}

impl LoginForm {
    /// An empty login screen without an error.
    pub fn new() -> (form: LoginForm)
        ensures
            form@.username.len() == 0,
            form@.password.len() == 0,
            form@.error_message.len() == 0,
    {
        LoginForm { username: String::new(), password: String::new(), error_message: String::new() }
    }

    /// Takes one event: updates the form and the shared login state and
    /// says what to do next.
    pub fn step(&mut self, auth: &mut AuthState, event: LoginEvent) -> (action: LoginAction)
        ensures
            (final(self)@, final(auth)@, action@) == login_transition(old(self)@, old(auth)@, event),
    {
        match event {
            LoginEvent::UsernameInput(v) => {
                self.username = v;
                LoginAction::Nothing
            },
            LoginEvent::PasswordInput(v) => {
                self.password = v;
                LoginAction::Nothing
            },
            LoginEvent::LoginClicked => {
                if self.username.as_str().is_empty() {
                    self.error_message = String::from_str("Username cannot be empty");
                    LoginAction::Nothing
                } else if self.password.as_str().is_empty() {
                    self.error_message = String::from_str("Password cannot be empty");
                    LoginAction::Nothing
                } else {
                    LoginAction::Authenticate {
                        username: self.username.clone(),
                        password: self.password.clone(),
                    }
                }
            },
            LoginEvent::RegisterClicked => LoginAction::Navigate(Route::Registration),
            LoginEvent::Reply(reply) => match reply {
                LoginReply::Found(user) => {
                    auth.user_id = user.id;
                    auth.username = Some(user.name);
                    LoginAction::Navigate(Route::Todos)
                },
                LoginReply::NotFound => {
                    self.error_message = String::from_str("Invalid username or password");
                    LoginAction::Nothing
                },
                LoginReply::QueryFailed => {
                    self.error_message = String::from_str("An error occurred during login");
                    LoginAction::Nothing
                },
                LoginReply::Unreachable => {
                    self.error_message = String::from_str("Could not connect to database");
                    LoginAction::Nothing
                },
            },
        }
    }
}

/// A login attempt is made only when both fields are filled in, and then
/// with exactly what was typed; the click itself changes nothing else.
pub proof fn lemma_login_attempt_needs_both_fields(form: LoginFormView, auth: AuthView)
    ensures
        ({
            let (f, a, act) = login_transition(form, auth, LoginEvent::LoginClicked);
            &&& a == auth
            &&& f.username == form.username
            &&& f.password == form.password
            &&& (act is Authenticate) <==> (form.username.len() != 0 && form.password.len() != 0)
            &&& act is Authenticate ==> act == LoginActionView::Authenticate {
                username: form.username,
                password: form.password,
            }
            &&& !(act is Authenticate) ==> act == LoginActionView::Nothing
        }),
{
}

/// A successful login records the user as logged in and opens the to-do
/// screen; every other event leaves the login state as it was.
pub proof fn lemma_login_state_changes_only_on_success(
    form: LoginFormView,
    auth: AuthView,
    event: LoginEvent,
)
    ensures
        ({
            let (f, a, act) = login_transition(form, auth, event);
            match event {
                LoginEvent::Reply(LoginReply::Found(user)) => {
                    &&& a == AuthView { user_id: user.id, username: Some(user.name@) }
                    &&& act == LoginActionView::Navigate(Route::Todos)
                    &&& f == form
                },
                _ => a == auth,
            }
        }),
{
}

/// Typing into a field replaces it with what was typed, whatever it held
/// before; the last input is what counts, and nothing else changes. The
/// login attempt then uses the latest values.
pub proof fn lemma_login_inputs_replace(form: LoginFormView, auth: AuthView, a: String, b: String)
    ensures
        ({
            let (f, x, act) = login_transition(form, auth, LoginEvent::UsernameInput(a));
            &&& f.username == a@
            &&& f.password == form.password
            &&& f.error_message == form.error_message
            &&& x == auth
            &&& act == LoginActionView::Nothing
        }),
        ({
            let (f, x, act) = login_transition(form, auth, LoginEvent::PasswordInput(a));
            &&& f.password == a@
            &&& f.username == form.username
            &&& f.error_message == form.error_message
            &&& x == auth
            &&& act == LoginActionView::Nothing
        }),
        ({
            let f1 = login_transition(form, auth, LoginEvent::UsernameInput(a)).0;
            let f2 = login_transition(f1, auth, LoginEvent::PasswordInput(b)).0;
            let act = login_transition(f2, auth, LoginEvent::LoginClicked).2;
            &&& a@.len() != 0 && b@.len() != 0 ==> act == (LoginActionView::Authenticate {
                username: a@,
                password: b@,
            })
        }),
        login_transition(
            login_transition(form, auth, LoginEvent::UsernameInput(a)).0,
            auth,
            LoginEvent::UsernameInput(b),
        ).0.username == b@,
{
}

} // verus!
