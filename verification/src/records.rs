use vstd::prelude::*;
use crate::hashing::{hash_password, password_hash_spec};
use crate::model::{Todo, User};

verus! {

/// The columns of one row of the `todos` table, as read from the database.
pub struct TodoRow {
    pub id: i64,
    pub user_id: i64,
    pub name: String,
    pub description: Option<String>,
    pub status: String,
    pub deadline: Option<String>,
}

/// The values bound to the insertion of an item, in the order of the
/// statement's parameters: user, name, description, status, deadline.
pub struct TodoInsert {
    pub user_id: i64,
    pub name: String,
    pub description: Option<String>,
    pub status: String,
    pub deadline: Option<String>,
}

/// The values bound to the update of an item, in the order of the
/// statement's parameters: name, description, status, deadline, and the id
/// of the row to change.
pub struct TodoUpdate {
    pub name: String,
    pub description: Option<String>,
    pub status: String,
    pub deadline: Option<String>,
    pub id: Option<i64>,
}

/// The name and password hash that registration stores and login looks up.
pub struct Credentials {
    pub name: String,
    pub password_hash: String,
}

/// The item a row of the `todos` table stands for.
pub open spec fn todo_of_row(row: TodoRow) -> Todo {
    Todo {
        id: Some(row.id),
        user_id: row.user_id,
        name: row.name,
        description: row.description,
        status: row.status,
        deadline: row.deadline,
    }
}

/// Turns a row of the `todos` table into an item; the row's id becomes the
/// item's id.
pub fn row_to_todo(row: TodoRow) -> (todo: Todo)
    ensures
        todo == todo_of_row(row),
{
    Todo {
        id: Some(row.id),
        user_id: row.user_id,
        name: row.name,
        description: row.description,
        status: row.status,
        deadline: row.deadline,
    }
}

/// Turns the id, name and stored hash read from the `users` table into a user.
pub fn row_to_user(id: i64, name: String, password: String) -> (user: User)
    ensures
        user.id == Some(id),
        user.name == name,
        user.password == password,
{
    User { id: Some(id), name, password }
}

/// The values bound to the insertion of `todo`: every column but the id,
/// which the database assigns.
pub open spec fn insert_values_of(todo: Todo) -> TodoInsert {
    TodoInsert {
        user_id: todo.user_id,
        name: todo.name,
        description: todo.description,
        status: todo.status,
        deadline: todo.deadline,
    }
}

/// The values that creating `todo` binds to the insertion.
pub fn insert_values(todo: &Todo) -> (v: TodoInsert)
    ensures
        v == insert_values_of(*todo),
{
    let t = todo.clone();
    TodoInsert {
        user_id: t.user_id,
        name: t.name,
        description: t.description,
        status: t.status,
        deadline: t.deadline,
    }
}

/// The row that an insertion of `v` leaves in the table once the database
/// has given it the id `id`.
pub open spec fn row_inserted(v: TodoInsert, id: i64) -> TodoRow {
    TodoRow {
        id,
        user_id: v.user_id,
        name: v.name,
        description: v.description,
        status: v.status,
        deadline: v.deadline,
    }
}

/// The values bound to the update of `todo`: the editable columns, and its
/// id to select the row. The owner is never changed.
pub open spec fn update_values_of(todo: Todo) -> TodoUpdate {
    TodoUpdate {
        name: todo.name,
        description: todo.description,
        status: todo.status,
        deadline: todo.deadline,
        id: todo.id,
    }
}

/// The values that updating `todo` binds to the update.
pub fn update_values(todo: &Todo) -> (v: TodoUpdate)
    ensures
        v == update_values_of(*todo),
{
    let t = todo.clone();
    TodoUpdate {
        name: t.name,
        description: t.description,
        status: t.status,
        deadline: t.deadline,
        id: t.id,
    }
}

/// A row after an update with `v`: selected by id, the editable columns take
/// the new values and the owner stays.
pub open spec fn row_updated(row: TodoRow, v: TodoUpdate) -> TodoRow {
    if v.id == Some(row.id) {
        TodoRow {
            name: v.name,
            description: v.description,
            status: v.status,
            deadline: v.deadline,
            ..row
        }
    } else {
        row
    }
}

/// The credentials for a user name and a clear-text password: the name as
/// given and the password's hash.
pub fn credentials(name: &str, password: &str) -> (c: Credentials)
    ensures
        c.name@ == name@,
        c.password_hash@ == password_hash_spec(password@),
        c.password_hash@.len() == 64,
{
    Credentials { name: name.to_owned(), password_hash: hash_password(password) }
}

/// Whether every row in `rows` was read without error.
pub open spec fn all_read<E>(rows: Seq<Result<TodoRow, E>>) -> bool {
    forall|i: int| 0 <= i < rows.len() ==> (#[trigger] rows[i]) is Ok
}

/// The items of a list of rows that were all read without error.
pub open spec fn todos_of_rows<E>(rows: Seq<Result<TodoRow, E>>) -> Seq<Todo> {
    rows.map_values(|r: Result<TodoRow, E>| todo_of_row(r->Ok_0))
}

/// Collects the items of the rows of a query, in order; the first row that
/// could not be read ends the collection with its error.
pub fn collect_todos<E>(rows: Vec<Result<TodoRow, E>>) -> (res: Result<Vec<Todo>, E>)
    ensures
        match res {
            Ok(todos) => all_read(rows@) && todos@ == todos_of_rows(rows@),
            Err(e) => exists|k: int|
                0 <= k < rows@.len() && rows@[k] == Err::<TodoRow, E>(e) && all_read(
                    rows@.subrange(0, k),
                ),
        },
{
    let ghost all = rows@;
    let mut todos: Vec<Todo> = Vec::new();
    for r in it: rows.into_iter()
        invariant
            it.seq() == all,
            todos@.len() == it.index(),
            all_read(all.subrange(0, it.index() as int)),
            todos@ =~= todos_of_rows(all.subrange(0, it.index() as int)),
    {
        let ghost k = it.index();
        match r {
            Ok(row) => {
                todos.push(row_to_todo(row));
                proof {
                    let sub = all.subrange(0, k + 1);
                    assert(sub.subrange(0, k as int) =~= all.subrange(0, k as int));
                    assert(todos@ =~= todos_of_rows(sub));
                }
            },
            Err(e) => {
                return Err(e);
            },
        }
    }
    proof {
        assert(all.subrange(0, all.len() as int) =~= all);
    }
    Ok(todos)
}

/// Reading back the row written for an item gives the item again, now with
/// the id that the database assigned.
pub proof fn lemma_insert_then_read(todo: Todo, id: i64)
    ensures
        todo_of_row(row_inserted(insert_values_of(todo), id)) == (Todo { id: Some(id), ..todo }),
{
}

/// Reading back a row after updating it with an item of the same id and
/// owner gives that item; rows of other ids are left alone.
pub proof fn lemma_update_then_read(row: TodoRow, todo: Todo)
    ensures
        todo.id == Some(row.id) && todo.user_id == row.user_id ==> todo_of_row(
            row_updated(row, update_values_of(todo)),
        ) == todo,
        todo.id != Some(row.id) ==> row_updated(row, update_values_of(todo)) == row,
{
}

} // verus!
