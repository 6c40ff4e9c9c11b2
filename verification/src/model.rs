use vstd::prelude::*;

verus! {

/// A registered user, as read back from the `users` table. `password` holds
/// the stored hash, never the clear text.
#[derive(Debug)]
pub struct User {
    pub id: Option<i64>,
    pub name: String,
    pub password: String,
}

/// A to-do item of one user, as kept in the `todos` table. `id` is `None`
/// until the database has assigned one.
#[derive(Debug)]
pub struct Todo {
    pub id: Option<i64>,
    pub user_id: i64,
    pub name: String,
    pub description: Option<String>,
    pub status: String,
    pub deadline: Option<String>,
}

/// Who is logged in: shared by the screens of the application.
#[derive(Debug)]
pub struct AuthState {
    pub user_id: Option<i64>,
    pub username: Option<String>,
}

/// The contents of an optional text.
pub open spec fn opt_text(o: Option<String>) -> Option<Seq<char>> {
    match o {
        Some(s) => Some(s@),
        None => None,
    }
}

/// A to-do item with its texts as character sequences.
pub struct TodoView {
    pub id: Option<i64>,
    pub user_id: i64,
    pub name: Seq<char>,
    pub description: Option<Seq<char>>,
    pub status: Seq<char>,
    pub deadline: Option<Seq<char>>,
}

impl View for Todo {
    type V = TodoView;

    open spec fn view(&self) -> TodoView {
        TodoView {
            id: self.id,
            user_id: self.user_id,
            name: self.name@,
            description: opt_text(self.description),
            status: self.status@,
            deadline: opt_text(self.deadline),
        }
    }
}

/// The login state with its user name as a character sequence.
pub struct AuthView {
    pub user_id: Option<i64>,
    pub username: Option<Seq<char>>,
}

impl View for AuthState {
    type V = AuthView;

    open spec fn view(&self) -> AuthView {
        AuthView { user_id: self.user_id, username: opt_text(self.username) }
    }
}

/// The views of a list of items.
pub open spec fn todo_views(todos: Seq<Todo>) -> Seq<TodoView> {
    todos.map_values(|t: Todo| t@)
}

/// The status text of an item that still has to be done.
pub open spec fn pending_status() -> Seq<char> {
    seq!['P', 'E', 'N', 'D', 'I', 'N', 'G']
}

/// The status text of an item that is done.
pub open spec fn completed_status() -> Seq<char> {
    seq!['C', 'O', 'M', 'P', 'L', 'E', 'T', 'E', 'D']
}

/// A fresh `"PENDING"` status text.
pub fn pending() -> (s: String)
    ensures
        s@ == pending_status(),
{
    proof {
        reveal_strlit("PENDING");
    }
    String::from_str("PENDING")
}

/// A fresh `"COMPLETED"` status text.
pub fn completed() -> (s: String)
    ensures
        s@ == completed_status(),
{
    proof {
        reveal_strlit("COMPLETED");
    }
    String::from_str("COMPLETED")
}

/// A copy of an optional text.
pub fn clone_opt_string(s: &Option<String>) -> (res: Option<String>)
    ensures
        res == *s,
{
    match s {
        Some(t) => Some(t.clone()),
        None => None,
    }
}

/// The status that a click on an item's check box sets: a completed item
/// becomes pending, any other becomes completed.
pub open spec fn toggled_status(status: Seq<char>) -> Seq<char> {
    if status == completed_status() {
        pending_status()
    } else {
        completed_status()
    }
}

impl Clone for Todo {
    fn clone(&self) -> (res: Self)
        ensures
            res == *self,
    {
        Todo {
            id: self.id,
            user_id: self.user_id,
            name: self.name.clone(),
            description: clone_opt_string(&self.description),
            status: self.status.clone(),
            deadline: clone_opt_string(&self.deadline),
        }
    }
}

impl Todo {
    /// The item that the "Add Todo" button creates: no id yet, status
    /// `"PENDING"`, the given description, no deadline.
    pub fn new_pending(user_id: i64, name: String, description: String) -> (todo: Todo)
        ensures
            todo.id == None::<i64>,
            todo.user_id == user_id,
            todo.name == name,
            todo.description == Some(description),
            todo.status@ == pending_status(),
            todo.deadline == None::<String>,
    {
        Todo { id: None, user_id, name, description: Some(description), status: pending(), deadline: None }
    }

    /// Whether the item is done: its status is exactly `"COMPLETED"`.
    pub fn is_completed(&self) -> (b: bool)
        ensures
            b == (self.status@ == completed_status()),
    {
        self.status == completed()
    }

    /// The same item with its status toggled, as the check box does.
    pub fn toggled(&self) -> (res: Todo)
        ensures
            res.id == self.id,
            res.user_id == self.user_id,
            res.name == self.name,
            res.description == self.description,
            res.deadline == self.deadline,
            res.status@ == toggled_status(self.status@),
    {
        let mut res = self.clone();
        if self.is_completed() {
            res.status = pending();
        } else {
            res.status = completed();
        }
        res
    }

    /// The key under which the item is listed: its id, or 0 while it has none.
    pub fn list_key(&self) -> (k: i64)
        ensures
            k == match self.id {
                Some(id) => id,
                None => 0,
            },
    {
        match self.id {
            Some(id) => id,
            None => 0,
        }
    }
}

impl Clone for AuthState {
    fn clone(&self) -> (res: Self)
        ensures
            res == *self,
    {
        AuthState { user_id: self.user_id, username: clone_opt_string(&self.username) }
    }
}

impl Default for AuthState {
    fn default() -> (res: Self)
        ensures
            res.user_id == None::<i64>,
            res.username == None::<String>,
    {
        AuthState { user_id: None, username: None }
    }
}

impl AuthState {
    /// Whether somebody is logged in.
    pub fn is_logged_in(&self) -> (b: bool)
        ensures
            b == (self.user_id is Some),
    {
        self.user_id.is_some()
    }
}

/// Toggling twice gives back the status of an item that is pending or
/// completed.
pub proof fn lemma_toggle_twice(status: Seq<char>)
    requires
        status == pending_status() || status == completed_status(),
    ensures
        toggled_status(toggled_status(status)) == status,
{
    assert(pending_status() != completed_status()) by {
        assert(pending_status().len() != completed_status().len());
    }
}

} // verus!
