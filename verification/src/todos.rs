use vstd::prelude::*;
use crate::model::{
    AuthState, AuthView, Todo, TodoView, completed_status, pending_status, todo_views,
    toggled_status,
};
use crate::route::Route;
use crate::login::{LoginActionView, LoginEvent, LoginFormView, LoginReply, login_transition};
use crate::registration::{
    RegistrationEvent, RegistrationFormView, RegistrationReply, registration_transition,
};

verus! {

/// Why the list of items is read again.
#[derive(Clone, Copy, Debug, PartialEq, Eq, Structural)]
pub enum Refresh {
    /// The screen shows a user for the first time.
    Initial,
    /// An item was added.
    AfterCreate,
    /// An item was removed.
    AfterDelete,
    /// An item was changed.
    AfterUpdate,
}

/// What the to-do screen holds: the user's items, the two fields for a new
/// item, and the item being edited, if any.
pub struct TodoScreen {
    pub todos: Vec<Todo>,
    pub new_todo_name: String,
    pub new_todo_description: String,
    pub editing_todo: Option<Todo>,
}

/// The to-do screen with its texts as character sequences.
pub struct TodoScreenView {
    pub todos: Seq<TodoView>,
    pub new_todo_name: Seq<char>,
    pub new_todo_description: Seq<char>,
    pub editing_todo: Option<TodoView>,
}

/// The view of an optional item.
pub open spec fn opt_todo(t: Option<Todo>) -> Option<TodoView> {
    match t {
        Some(t) => Some(t@),
        None => None,
    }
}

impl View for TodoScreen {
    type V = TodoScreenView;

    open spec fn view(&self) -> TodoScreenView {
        TodoScreenView {
            todos: todo_views(self.todos@),
            new_todo_name: self.new_todo_name@,
            new_todo_description: self.new_todo_description@,
            editing_todo: opt_todo(self.editing_todo),
        }
    }
}

/// What happens on the to-do screen. An event that names an item carries
/// the item as listed.
pub enum TodoEvent {
    /// The screen is drawn.
    Render,
    /// The logged-in user is (again) known to the screen.
    UserChanged,
    NameInput(String),
    DescriptionInput(String),
    AddClicked,
    /// Whether adding the item succeeded.
    Created(bool),
    ToggleClicked(Todo),
    EditClicked(Todo),
    EditNameInput(String),
    EditDescriptionInput(String),
    SaveClicked,
    CancelClicked,
    /// Whether changing the item succeeded.
    Updated(bool),
    DeleteClicked(Todo),
    /// Whether removing the item succeeded.
    Deleted(bool),
    /// The user's items as read again, or `None` when reading failed.
    Fetched(Refresh, Option<Vec<Todo>>),
}

/// What the screen asks of its surroundings after an event.
pub enum TodoAction {
    Nothing,
    Navigate(Route),
    /// Read the items of this user, then hand them back with the reason.
    Fetch { user_id: i64, after: Refresh },
    /// Store this new item, then say whether it worked.
    Create(Todo),
    /// Store these new contents of an item, then say whether it worked.
    Update(Todo),
    /// Remove the item with this id, then say whether it worked.
    Delete(i64),
}

/// An action with its items as views.
pub enum TodoActionView {
    Nothing,
    Navigate(Route),
    Fetch { user_id: i64, after: Refresh },
    Create(TodoView),
    Update(TodoView),
    Delete(i64),
}

impl View for TodoAction {
    type V = TodoActionView;

    open spec fn view(&self) -> TodoActionView {
        match self {
            TodoAction::Nothing => TodoActionView::Nothing,
            TodoAction::Navigate(r) => TodoActionView::Navigate(*r),
            TodoAction::Fetch { user_id, after } => TodoActionView::Fetch {
                user_id: *user_id,
                after: *after,
            },
            TodoAction::Create(t) => TodoActionView::Create(t@),
            TodoAction::Update(t) => TodoActionView::Update(t@),
            TodoAction::Delete(id) => TodoActionView::Delete(*id),
        }
    }
}

/// A refresh of the list, if somebody is logged in.
pub open spec fn refresh_for(auth: AuthView, after: Refresh) -> TodoActionView {
    match auth.user_id {
        Some(uid) => TodoActionView::Fetch { user_id: uid, after },
        None => TodoActionView::Nothing,
    }
}

/// What an event does to the to-do screen, given who is logged in, and what
/// it asks for next.
pub open spec fn todos_transition(screen: TodoScreenView, auth: AuthView, event: TodoEvent) -> (
    TodoScreenView,
    TodoActionView,
) {
    match event {
        TodoEvent::Render => (
            screen,
            if auth.user_id is None {
                TodoActionView::Navigate(Route::Login)
            } else {
                TodoActionView::Nothing
            },
        ),
        TodoEvent::UserChanged => (screen, refresh_for(auth, Refresh::Initial)),
        TodoEvent::NameInput(v) => (
            TodoScreenView { new_todo_name: v@, ..screen },
            TodoActionView::Nothing,
        ),
        TodoEvent::DescriptionInput(v) => (
            TodoScreenView { new_todo_description: v@, ..screen },
            TodoActionView::Nothing,
        ),
        TodoEvent::AddClicked => (
            screen,
            match auth.user_id {
                Some(uid) => if screen.new_todo_name.len() != 0 {
                    TodoActionView::Create(
                        TodoView {
                            id: None,
                            user_id: uid,
                            name: screen.new_todo_name,
                            description: Some(screen.new_todo_description),
                            status: pending_status(),
                            deadline: None,
                        },
                    )
                } else {
                    TodoActionView::Nothing
                },
                None => TodoActionView::Nothing,
            },
        ),
        TodoEvent::Created(ok) => (
            screen,
            if ok {
                refresh_for(auth, Refresh::AfterCreate)
            } else {
                TodoActionView::Nothing
            },
        ),
        TodoEvent::ToggleClicked(t) => (
            screen,
            TodoActionView::Update(TodoView { status: toggled_status(t@.status), ..t@ }),
        ),
        TodoEvent::EditClicked(t) => (
            TodoScreenView { editing_todo: Some(t@), ..screen },
            TodoActionView::Nothing,
        ),
        TodoEvent::EditNameInput(v) => (
            TodoScreenView {
                editing_todo: match screen.editing_todo {
                    Some(e) => Some(TodoView { name: v@, ..e }),
                    None => None,
                },
                ..screen
            },
            TodoActionView::Nothing,
        ),
        TodoEvent::EditDescriptionInput(v) => (
            TodoScreenView {
                editing_todo: match screen.editing_todo {
                    Some(e) => Some(TodoView { description: Some(v@), ..e }),
                    None => None,
                },
                ..screen
            },
            TodoActionView::Nothing,
        ),
        TodoEvent::SaveClicked => (
            screen,
            match screen.editing_todo {
                Some(e) => TodoActionView::Update(e),
                None => TodoActionView::Nothing,
            },
        ),
        TodoEvent::CancelClicked => (
            TodoScreenView { editing_todo: None, ..screen },
            TodoActionView::Nothing,
        ),
        TodoEvent::Updated(ok) => (
            screen,
            if ok {
                refresh_for(auth, Refresh::AfterUpdate)
            } else {
                TodoActionView::Nothing
            },
        ),
        TodoEvent::DeleteClicked(t) => (
            screen,
            match t.id {
                Some(id) => TodoActionView::Delete(id),
                None => TodoActionView::Nothing,
            },
        ),
        TodoEvent::Deleted(ok) => (
            screen,
            if ok {
                refresh_for(auth, Refresh::AfterDelete)
            } else {
                TodoActionView::Nothing
            },
        ),
        TodoEvent::Fetched(after, fetched) => (
            match fetched {
                Some(list) => {
                    let s = TodoScreenView { todos: todo_views(list@), ..screen };
                    if after == Refresh::AfterCreate {
                        TodoScreenView { new_todo_name: Seq::empty(), new_todo_description: Seq::empty(), ..s }
                    } else if after == Refresh::AfterUpdate {
                        TodoScreenView { editing_todo: None, ..s }
                    } else {
                        s
                    }
                },
                None => screen,
            },
            TodoActionView::Nothing,
        ),
    }
}

impl TodoScreen {
    /// An empty to-do screen: no items, empty fields, nothing being edited.
    pub fn new() -> (screen: TodoScreen)
        ensures
            screen@.todos.len() == 0,
            screen@.new_todo_name.len() == 0,
            screen@.new_todo_description.len() == 0,
            screen@.editing_todo is None,
    {
        TodoScreen {
            todos: Vec::new(),
            new_todo_name: String::new(),
            new_todo_description: String::new(),
            editing_todo: None,
        }
    }

    /// Whether `todo` is the item being edited: the one with the same id.
    pub fn is_editing(&self, todo: &Todo) -> (b: bool)
        ensures
            b == match self.editing_todo {
                Some(e) => e.id == todo.id,
                None => false,
            },
    {
        match &self.editing_todo {
            Some(e) => match (e.id, todo.id) {
                (Some(a), Some(b)) => a == b,
                (None, None) => true,
                _ => false,
            },
            None => false,
        }
    }

    fn refresh(auth: &AuthState, after: Refresh) -> (action: TodoAction)
        ensures
            action@ == refresh_for(auth@, after),
    {
        match auth.user_id {
            Some(uid) => TodoAction::Fetch { user_id: uid, after },
            None => TodoAction::Nothing,
        }
    }

    /// Takes one event, given who is logged in: updates the screen and says
    /// what to do next.
    pub fn step(&mut self, auth: &AuthState, event: TodoEvent) -> (action: TodoAction)
        ensures
            (final(self)@, action@) == todos_transition(old(self)@, auth@, event),
    {
        match event {
            TodoEvent::Render => {
                if auth.user_id.is_none() {
                    TodoAction::Navigate(Route::Login)
                } else {
                    TodoAction::Nothing
                }
            },
            TodoEvent::UserChanged => Self::refresh(auth, Refresh::Initial),
            TodoEvent::NameInput(v) => {
                self.new_todo_name = v;
                TodoAction::Nothing
            },
            TodoEvent::DescriptionInput(v) => {
                self.new_todo_description = v;
                TodoAction::Nothing
            },
            TodoEvent::AddClicked => match auth.user_id {
                Some(uid) => {
                    if !self.new_todo_name.as_str().is_empty() {
                        TodoAction::Create(
                            Todo::new_pending(
                                uid,
                                self.new_todo_name.clone(),
                                self.new_todo_description.clone(),
                            ),
                        )
                    } else {
                        TodoAction::Nothing
                    }
                },
                None => TodoAction::Nothing,
            },
            TodoEvent::Created(ok) => {
                if ok {
                    Self::refresh(auth, Refresh::AfterCreate)
                } else {
                    TodoAction::Nothing
                }
            },
            TodoEvent::ToggleClicked(t) => TodoAction::Update(t.toggled()),
            TodoEvent::EditClicked(t) => {
                self.editing_todo = Some(t);
                TodoAction::Nothing
            },
            TodoEvent::EditNameInput(v) => {
                match self.editing_todo.take() {
                    Some(mut e) => {
                        e.name = v;
                        self.editing_todo = Some(e);
                    },
                    None => {},
                }
                TodoAction::Nothing
            },
            TodoEvent::EditDescriptionInput(v) => {
                match self.editing_todo.take() {
                    Some(mut e) => {
                        e.description = Some(v);
                        self.editing_todo = Some(e);
                    },
                    None => {},
                }
                TodoAction::Nothing
            },
            TodoEvent::SaveClicked => match &self.editing_todo {
                Some(e) => TodoAction::Update(e.clone()),
                None => TodoAction::Nothing,
            },
            TodoEvent::CancelClicked => {
                self.editing_todo = None;
                TodoAction::Nothing
            },
            TodoEvent::Updated(ok) => {
                if ok {
                    Self::refresh(auth, Refresh::AfterUpdate)
                } else {
                    TodoAction::Nothing
                }
            },
            TodoEvent::DeleteClicked(t) => match t.id {
                Some(id) => TodoAction::Delete(id),
                None => TodoAction::Nothing,
            },
            TodoEvent::Deleted(ok) => {
                if ok {
                    Self::refresh(auth, Refresh::AfterDelete)
                } else {
                    TodoAction::Nothing
                }
            },
            TodoEvent::Fetched(after, fetched) => {
                match fetched {
                    Some(list) => {
                        self.todos = list;
                        match after {
                            Refresh::AfterCreate => {
                                self.new_todo_name = String::new();
                                self.new_todo_description = String::new();
                            },
                            Refresh::AfterUpdate => {
                                self.editing_todo = None;
                            },
                            _ => {},
                        }
                    },
                    None => {},
                }
                TodoAction::Nothing
            },
        }
    }
}

/// Without a logged-in user the to-do screen sends the user to the login
/// screen, and no event makes it read or add items.
pub proof fn lemma_no_user_no_items(screen: TodoScreenView, auth: AuthView, event: TodoEvent)
    requires
        auth.user_id is None,
    ensures
        todos_transition(screen, auth, TodoEvent::Render).1 == TodoActionView::Navigate(
            Route::Login,
        ),
        !(todos_transition(screen, auth, event).1 is Fetch),
        !(todos_transition(screen, auth, event).1 is Create),
{
}

/// An added item belongs to the logged-in user, has no id yet, is pending,
/// and carries the typed name (never empty) and description.
pub proof fn lemma_created_item_shape(screen: TodoScreenView, auth: AuthView)
    ensures
        ({
            let (s, act) = todos_transition(screen, auth, TodoEvent::AddClicked);
            &&& s == screen
            &&& act is Create ==> {
                let t = act->Create_0;
                &&& auth.user_id == Some(t.user_id)
                &&& t.id is None
                &&& t.status == pending_status()
                &&& t.name == screen.new_todo_name
                &&& t.name.len() != 0
                &&& t.description == Some(screen.new_todo_description)
                &&& t.deadline is None
            }
            &&& (act is Create) <==> (auth.user_id is Some && screen.new_todo_name.len() != 0)
        }),
{
}

/// After a successful addition the list is read again for the same user,
/// and once it arrives it is shown and both fields are empty.
pub proof fn lemma_add_then_refresh(
    screen: TodoScreenView,
    auth: AuthView,
    uid: i64,
    list: Vec<Todo>,
)
    requires
        auth.user_id == Some(uid),
    ensures
        todos_transition(screen, auth, TodoEvent::Created(true)).1 == (TodoActionView::Fetch {
            user_id: uid,
            after: Refresh::AfterCreate,
        }),
        ({
            let s = todos_transition(
                screen,
                auth,
                TodoEvent::Fetched(Refresh::AfterCreate, Some(list)),
            ).0;
            &&& s.todos == todo_views(list@)
            &&& s.new_todo_name.len() == 0
            &&& s.new_todo_description.len() == 0
            &&& s.editing_todo == screen.editing_todo
        }),
{
}

/// Logging in, then opening the to-do screen, shows that screen and reads
/// the items of the user who logged in.
pub proof fn lemma_login_leads_to_own_items(
    form: LoginFormView,
    auth: AuthView,
    user: crate::model::User,
    uid: i64,
    screen: TodoScreenView,
)
    requires
        user.id == Some(uid),
    ensures
        ({
            let (_, a, act) = login_transition(
                form,
                auth,
                LoginEvent::Reply(LoginReply::Found(user)),
            );
            &&& act == LoginActionView::Navigate(Route::Todos)
            &&& todos_transition(screen, a, TodoEvent::Render).1 == TodoActionView::Nothing
            &&& todos_transition(screen, a, TodoEvent::UserChanged).1 == TodoActionView::Fetch {
                user_id: uid,
                after: Refresh::Initial,
            }
        }),
{
}

/// Registering logs the new user in, so that the to-do screen then reads
/// that user's items.
pub proof fn lemma_registration_leads_to_own_items(
    form: RegistrationFormView,
    auth: AuthView,
    id: i64,
    screen: TodoScreenView,
)
    ensures
        ({
            let (_, a, _) = registration_transition(
                form,
                auth,
                RegistrationEvent::Reply(RegistrationReply::Registered(id)),
            );
            &&& todos_transition(screen, a, TodoEvent::Render).1 == TodoActionView::Nothing
            &&& todos_transition(screen, a, TodoEvent::UserChanged).1 == TodoActionView::Fetch {
                user_id: id,
                after: Refresh::Initial,
            }
        }),
{
}

/// Whatever the reason for reading the list again, the items that came back
/// are exactly the items shown, in their order; the rest of the screen is
/// cleared only as the reason says. When reading failed, nothing changes.
pub proof fn lemma_fetched_list_is_shown(
    screen: TodoScreenView,
    auth: AuthView,
    after: Refresh,
    list: Vec<Todo>,
)
    ensures
        ({
            let (s, act) = todos_transition(screen, auth, TodoEvent::Fetched(after, Some(list)));
            &&& s.todos == todo_views(list@)
            &&& s.todos.len() == list@.len()
            &&& forall|i: int| 0 <= i < list@.len() ==> s.todos[i] == (#[trigger] list@[i])@
            &&& act == TodoActionView::Nothing
            &&& s.new_todo_name == (if after == Refresh::AfterCreate {
                Seq::<char>::empty()
            } else {
                screen.new_todo_name
            })
            &&& s.new_todo_description == (if after == Refresh::AfterCreate {
                Seq::<char>::empty()
            } else {
                screen.new_todo_description
            })
            &&& s.editing_todo == (if after == Refresh::AfterUpdate {
                None
            } else {
                screen.editing_todo
            })
        }),
        todos_transition(screen, auth, TodoEvent::Fetched(after, None)) == (
            screen,
            TodoActionView::Nothing,
        ),
{
}

/// Deleting asks to remove exactly the row with the item's own id, and an
/// item without an id is not removed; the shown list only changes when the
/// list read afterwards arrives.
pub proof fn lemma_delete_removes_that_item(screen: TodoScreenView, auth: AuthView, t: Todo)
    ensures
        ({
            let (s, act) = todos_transition(screen, auth, TodoEvent::DeleteClicked(t));
            &&& s == screen
            &&& forall|id: i64| act == TodoActionView::Delete(id) <==> t.id == Some(id)
            &&& t.id is None ==> act == TodoActionView::Nothing
        }),
{
}

/// Saving sends exactly the item being edited, with every change made to it
/// and nothing else; without an item being edited nothing is sent. Editing
/// the name or description changes only that field of the edited item.
pub proof fn lemma_save_sends_the_edited_item(
    screen: TodoScreenView,
    auth: AuthView,
    t: Todo,
    v: String,
)
    ensures
        ({
            let (s, act) = todos_transition(screen, auth, TodoEvent::SaveClicked);
            &&& s == screen
            &&& match screen.editing_todo {
                Some(e) => act == TodoActionView::Update(e),
                None => act == TodoActionView::Nothing,
            }
        }),
        ({
            let s1 = todos_transition(screen, auth, TodoEvent::EditClicked(t)).0;
            let s2 = todos_transition(s1, auth, TodoEvent::EditNameInput(v)).0;
            let (_, act) = todos_transition(s2, auth, TodoEvent::SaveClicked);
            &&& s1.editing_todo == Some(t@)
            &&& act matches TodoActionView::Update(u) && {
                &&& u.id == t@.id
                &&& u.user_id == t@.user_id
                &&& u.name == v@
                &&& u.description == t@.description
                &&& u.status == t@.status
                &&& u.deadline == t@.deadline
            }
        }),
        ({
            let s = todos_transition(screen, auth, TodoEvent::EditDescriptionInput(v)).0;
            &&& s.todos == screen.todos
            &&& match screen.editing_todo {
                Some(e) => s.editing_todo matches Some(f) && {
                    &&& f.description == Some(v@)
                    &&& f.id == e.id && f.user_id == e.user_id && f.name == e.name
                    &&& f.status == e.status && f.deadline == e.deadline
                },
                None => s.editing_todo is None,
            }
        }),
{
}

/// Toggling an item asks to store it with only its status changed: a
/// completed item becomes pending and any other becomes completed, while id,
/// owner, name, description and deadline stay as they were.
pub proof fn lemma_toggle_changes_only_status(screen: TodoScreenView, auth: AuthView, t: Todo)
    ensures
        ({
            let (s, act) = todos_transition(screen, auth, TodoEvent::ToggleClicked(t));
            &&& s == screen
            &&& act matches TodoActionView::Update(u) && {
                &&& u.id == t@.id
                &&& u.user_id == t@.user_id
                &&& u.name == t@.name
                &&& u.description == t@.description
                &&& u.deadline == t@.deadline
                &&& (u.status == completed_status()) <==> (t@.status != completed_status())
                &&& t@.status == completed_status() ==> u.status == pending_status()
            }
        }),
{
    assert(pending_status() != completed_status()) by {
        assert(pending_status().len() != completed_status().len());
    }
}

/// Typing into a field of the new-item form replaces that field with what
/// was typed, whatever it held; the last input is what counts.
pub proof fn lemma_new_item_inputs_replace(
    screen: TodoScreenView,
    auth: AuthView,
    a: String,
    b: String,
)
    ensures
        ({
            let s = todos_transition(screen, auth, TodoEvent::NameInput(a)).0;
            &&& s.new_todo_name == a@
            &&& s.new_todo_description == screen.new_todo_description
            &&& s.todos == screen.todos
            &&& s.editing_todo == screen.editing_todo
        }),
        ({
            let s = todos_transition(screen, auth, TodoEvent::DescriptionInput(a)).0;
            &&& s.new_todo_description == a@
            &&& s.new_todo_name == screen.new_todo_name
        }),
        todos_transition(
            todos_transition(screen, auth, TodoEvent::NameInput(a)).0,
            auth,
            TodoEvent::NameInput(b),
        ).0.new_todo_name == b@,
{
}

} // verus!
