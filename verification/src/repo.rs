use vstd::prelude::*;
use crate::db::{
    describe_error, error_text, exec_delete_todo, exec_insert_todo, exec_update_todo_status,
    query_todos, todos_columns, todos_rows,
};
use crate::table::{after_add, after_delete, after_update, fresh_id};
use crate::todo::{opt_str_view, Todo};

verus! {

/// Creates a task: appends one row, not yet completed, holding the given
/// description and due date, under a fresh id larger than every id
/// already in the table.  The schema is untouched.  A failed creation
/// changes nothing and reports the storage engine's message.
pub fn add_todo(conn: &mut rusqlite::Connection, task: String, due_date: Option<String>) -> (r:
    Result<(), String>)
    ensures
        r is Ok ==> exists|id: i64|
            #[trigger] fresh_id(todos_rows(*old(conn)), id) && todos_rows(*final(conn))
                == after_add(todos_rows(*old(conn)), id, task@, opt_str_view(due_date)),
        r is Ok ==> todos_columns(*final(conn)) == todos_columns(*old(conn)),
        r is Err ==> todos_rows(*final(conn)) == todos_rows(*old(conn)) && todos_columns(
            *final(conn),
        ) == todos_columns(*old(conn)),
        r matches Err(msg) ==> exists|e: rusqlite::Error|
            msg@ == "Failed to add todo"@ + ": "@ + #[trigger] error_text(e),
{
    match exec_insert_todo(conn, &task, &due_date) {
        Ok(()) => Ok(()),
        Err(e) => Err(describe_error("Failed to add todo", &e)),
    }
}

/// Lists every task in the table, in ascending id order.  Either every
/// row is decoded and returned, or the call fails as a whole with the
/// storage engine's message: no partial listing is ever handed back.
pub fn get_todos(conn: &rusqlite::Connection) -> (r: Result<Vec<Todo>, String>)
    ensures
        r matches Ok(v) ==> v@.len() == todos_rows(*conn).len() && forall|i: int|
            0 <= i < v@.len() ==> (#[trigger] v@[i])@ == todos_rows(*conn)[i],
        r matches Err(msg) ==> exists|e: rusqlite::Error|
            msg@ == "Failed to prepare statement"@ + ": "@ + #[trigger] error_text(e) || msg@
                == "Failed to process todo row"@ + ": "@ + error_text(e),
{
    let items = match query_todos(conn) {
        Ok(items) => items,
        Err(e) => {
            return Err(describe_error("Failed to prepare statement", &e));
        }
    };
    let ghost items_view = items@;
    let mut todos: Vec<Todo> = Vec::new();
    for item in it: items
        invariant
            it.seq() == items_view,
            forall|i: int|
                0 <= i < items_view.len() ==> ((#[trigger] items_view[i]) matches Ok(t) ==> t@
                    == todos_rows(*conn)[i]),
            (forall|i: int| 0 <= i < items_view.len() ==> (#[trigger] items_view[i]) is Ok)
                ==> items_view.len() == todos_rows(*conn).len(),
            forall|i: int| 0 <= i < it.index() ==> (#[trigger] items_view[i]) is Ok,
            todos@.len() == it.index(),
            forall|i: int|
                0 <= i < todos@.len() ==> (#[trigger] todos@[i])@ == todos_rows(*conn)[i],
    {
        match item {
            Ok(t) => todos.push(t),
            Err(e) => {
                return Err(describe_error("Failed to process todo row", &e));
            }
        }
    }
    Ok(todos)
}

/// Sets the completion flag of the task with the given id.  Exactly the
/// matching row changes, and only its flag; an id that matches no row
/// leaves the table as it was, without error.  A failed update changes
/// nothing and reports the storage engine's message: whatever the
/// outcome, no id, description, due date or column ever changes here.
pub fn update_todo_status(conn: &mut rusqlite::Connection, id: i64, completed: bool) -> (r: Result<
    (),
    String,
>)
    ensures
        r is Ok ==> todos_rows(*final(conn)) == after_update(
            todos_rows(*old(conn)),
            id,
            completed,
        ),
        r is Ok ==> todos_columns(*final(conn)) == todos_columns(*old(conn)),
        r is Err ==> todos_rows(*final(conn)) == todos_rows(*old(conn)) && todos_columns(
            *final(conn),
        ) == todos_columns(*old(conn)),
        r matches Err(msg) ==> exists|e: rusqlite::Error|
            msg@ == "Failed to update todo"@ + ": "@ + #[trigger] error_text(e),
{
    match exec_update_todo_status(conn, id, completed) {
        Ok(()) => Ok(()),
        Err(e) => Err(describe_error("Failed to update todo", &e)),
    }
}

/// Deletes the task with the given id.  Exactly the matching row goes,
/// the rest keep their order; an id that matches no row leaves the table
/// as it was, without error.  A failed deletion changes nothing and
/// reports the storage engine's message.
pub fn delete_todo(conn: &mut rusqlite::Connection, id: i64) -> (r: Result<(), String>)
    ensures
        r is Ok ==> todos_rows(*final(conn)) == after_delete(todos_rows(*old(conn)), id),
        r is Ok ==> todos_columns(*final(conn)) == todos_columns(*old(conn)),
        r is Err ==> todos_rows(*final(conn)) == todos_rows(*old(conn)) && todos_columns(
            *final(conn),
        ) == todos_columns(*old(conn)),
        r matches Err(msg) ==> exists|e: rusqlite::Error|
            msg@ == "Failed to delete todo"@ + ": "@ + #[trigger] error_text(e),
{
    match exec_delete_todo(conn, id) {
        Ok(()) => Ok(()),
        Err(e) => Err(describe_error("Failed to delete todo", &e)),
    }
}

} // verus!
