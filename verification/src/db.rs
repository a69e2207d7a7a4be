use vstd::prelude::*;
use crate::table::{
    after_add, after_delete, after_update, due_date_column, fresh_id, full_schema, ColumnView,
    cleared_due_dates,
};
use crate::todo::{opt_str_view, Todo, TodoView};

verus! {

#[verifier::external_type_specification]
#[verifier::external_body]
pub struct ExConnection(rusqlite::Connection);

#[verifier::external_type_specification]
#[verifier::external_body]
pub struct ExError(rusqlite::Error);

/// The rows of the `todos` table behind connection `c`, in ascending id
/// order; empty when the table does not exist.
pub uninterp spec fn todos_rows(c: rusqlite::Connection) -> Seq<TodoView>;

/// The columns of the `todos` table behind connection `c`, in schema
/// order; empty when the table does not exist.
pub uninterp spec fn todos_columns(c: rusqlite::Connection) -> Seq<ColumnView>;

/// Relies on rusqlite::Connection::execute running
/// `CREATE TABLE IF NOT EXISTS todos (id INTEGER PRIMARY KEY AUTOINCREMENT,
/// task TEXT NOT NULL, completed BOOLEAN NOT NULL DEFAULT 0, due_date TEXT
/// NULL)`: when no `todos` table exists it is created empty with exactly
/// those columns; when one exists, nothing changes.  A failed statement
/// leaves the table as it was: in auto-commit mode the engine backs a
/// failed statement out.
#[verifier::external_body]
pub(crate) fn exec_create_todos_table(conn: &mut rusqlite::Connection) -> (r: Result<
    (),
    rusqlite::Error,
>)
    ensures
        r is Ok && todos_columns(*old(conn)).len() == 0 ==> todos_columns(*final(conn)) == full_schema()
            && todos_rows(*final(conn)) == Seq::<TodoView>::empty(),
        r is Ok && todos_columns(*old(conn)).len() > 0 ==> todos_columns(*final(conn)) == todos_columns(
            *old(conn),
        ) && todos_rows(*final(conn)) == todos_rows(*old(conn)),
        r is Err ==> todos_columns(*final(conn)) == todos_columns(*old(conn)) && todos_rows(
            *final(conn),
        ) == todos_rows(*old(conn)),
{
    conn.execute(
        "CREATE TABLE IF NOT EXISTS todos (
            id INTEGER PRIMARY KEY AUTOINCREMENT,
            task TEXT NOT NULL,
            completed BOOLEAN NOT NULL DEFAULT 0,
            due_date TEXT NULL
        )",
        [],
    ).map(|_| ())
}

/// Relies on rusqlite::Connection::prepare and Statement::query_map running
/// `PRAGMA table_info(todos)`: one row per column of the table, in schema
/// order, whose fields at indexes 1, 2 and 3 are the column's name, its
/// declared type, and 0 or 1 for its NOT NULL constraint; no rows when the
/// table does not exist.
#[verifier::external_body]
pub(crate) fn query_todos_columns(conn: &rusqlite::Connection) -> (r: Result<
    Vec<(String, String, i64)>,
    rusqlite::Error,
>)
    ensures
        r matches Ok(cols) ==> cols@.len() == todos_columns(*conn).len() && forall|i: int|
            0 <= i < cols@.len() ==> (#[trigger] cols@[i]).0@ == todos_columns(*conn)[i].name
                && cols@[i].1@ == todos_columns(*conn)[i].ctype && (cols@[i].2 != 0)
                == todos_columns(*conn)[i].notnull,
{
    let mut stmt = conn.prepare("PRAGMA table_info(todos);")?;
    let rows = stmt.query_map([], |row| Ok((row.get(1)?, row.get(2)?, row.get(3)?)))?;
    rows.collect()
}

/// Relies on rusqlite::Connection::execute running
/// `ALTER TABLE todos ADD COLUMN due_date TEXT NULL`: appends the nullable
/// text column to the schema and keeps every row, whose new field reads
/// back as NULL.  A failed statement leaves the table as it was: in
/// auto-commit mode the engine backs a failed statement out.
#[verifier::external_body]
pub(crate) fn exec_add_due_date_column(conn: &mut rusqlite::Connection) -> (r: Result<
    (),
    rusqlite::Error,
>)
    ensures
        r is Ok ==> todos_columns(*final(conn)) == todos_columns(*old(conn)).push(due_date_column())
            && todos_rows(*final(conn)) == cleared_due_dates(todos_rows(*old(conn))),
        r is Err ==> todos_columns(*final(conn)) == todos_columns(*old(conn)) && todos_rows(
            *final(conn),
        ) == todos_rows(*old(conn)),
{
    conn.execute("ALTER TABLE todos ADD COLUMN due_date TEXT NULL", []).map(|_| ())
}

/// Relies on rusqlite::Connection::execute running
/// `INSERT INTO todos (task, completed, due_date) VALUES (?1, 0, ?2)`
/// against the table's AUTOINCREMENT id: appends one not-yet-completed row
/// whose id is larger than every id already present.  A failed statement
/// leaves the table as it was: in auto-commit mode the engine backs a
/// failed statement out.
#[verifier::external_body]
pub(crate) fn exec_insert_todo(
    conn: &mut rusqlite::Connection,
    task: &String,
    due_date: &Option<String>,
) -> (r: Result<(), rusqlite::Error>)
    ensures
        r is Ok ==> exists|id: i64|
            #[trigger] fresh_id(todos_rows(*old(conn)), id) && todos_rows(*final(conn)) == after_add(
                todos_rows(*old(conn)),
                id,
                task@,
                opt_str_view(*due_date),
            ),
        r is Ok ==> todos_columns(*final(conn)) == todos_columns(*old(conn)),
        r is Err ==> todos_columns(*final(conn)) == todos_columns(*old(conn)) && todos_rows(
            *final(conn),
        ) == todos_rows(*old(conn)),
{
    conn.execute(
        "INSERT INTO todos (task, completed, due_date) VALUES (?1, 0, ?2)",
        (task, due_date),
    ).map(|_| ())
}

/// Relies on rusqlite::Connection::prepare and Statement::query_map running
/// `SELECT id, task, completed, due_date FROM todos ORDER BY id ASC`: the
/// rows come back in ascending id order, one entry each; an entry is Err
/// when one of its fields cannot be read back at the expected Rust type,
/// and a scan the engine fails midway ends on an Err entry.  So only a
/// result whose entries are all Ok is known to be the complete table.
#[verifier::external_body]
pub(crate) fn query_todos(conn: &rusqlite::Connection) -> (r: Result<
    Vec<Result<Todo, rusqlite::Error>>,
    rusqlite::Error,
>)
    ensures
        r matches Ok(items) ==> (forall|i: int|
            0 <= i < items@.len() ==> ((#[trigger] items@[i]) matches Ok(t) ==> t@ == todos_rows(
                *conn,
            )[i])) && ((forall|i: int| 0 <= i < items@.len() ==> (#[trigger] items@[i]) is Ok)
            ==> items@.len() == todos_rows(*conn).len()),
{
    let mut stmt = conn.prepare("SELECT id, task, completed, due_date FROM todos ORDER BY id ASC")?;
    let rows = stmt.query_map(
        [],
        |row| Ok(Todo {
            id: row.get(0)?,
            task: row.get(1)?,
            completed: row.get(2)?,
            due_date: row.get(3)?,
        }),
    )?;
    Ok(rows.collect())
}

/// Relies on rusqlite::Connection::execute running
/// `UPDATE todos SET completed = ?1 WHERE id = ?2`: sets the completion
/// flag on every row whose id matches and touches nothing else.  A
/// failed statement leaves the table as it was: in auto-commit mode the
/// engine backs a failed statement out.
#[verifier::external_body]
pub(crate) fn exec_update_todo_status(
    conn: &mut rusqlite::Connection,
    id: i64,
    completed: bool,
) -> (r: Result<(), rusqlite::Error>)
    ensures
        r is Ok ==> todos_rows(*final(conn)) == after_update(todos_rows(*old(conn)), id, completed),
        r is Ok ==> todos_columns(*final(conn)) == todos_columns(*old(conn)),
        r is Err ==> todos_columns(*final(conn)) == todos_columns(*old(conn)) && todos_rows(
            *final(conn),
        ) == todos_rows(*old(conn)),
{
    conn.execute("UPDATE todos SET completed = ?1 WHERE id = ?2", (completed, id)).map(|_| ())
}

/// Relies on rusqlite::Connection::execute running
/// `DELETE FROM todos WHERE id = ?1`: removes every row whose id matches
/// and keeps the rest in order.  A failed statement leaves the table as
/// it was: in auto-commit mode the engine backs a failed statement out.
#[verifier::external_body]
pub(crate) fn exec_delete_todo(conn: &mut rusqlite::Connection, id: i64) -> (r: Result<
    (),
    rusqlite::Error,
>)
    ensures
        r is Ok ==> todos_rows(*final(conn)) == after_delete(todos_rows(*old(conn)), id),
        r is Ok ==> todos_columns(*final(conn)) == todos_columns(*old(conn)),
        r is Err ==> todos_columns(*final(conn)) == todos_columns(*old(conn)) && todos_rows(
            *final(conn),
        ) == todos_rows(*old(conn)),
{
    conn.execute("DELETE FROM todos WHERE id = ?1", (id,)).map(|_| ())
}

/// The message text of a storage-engine error, which depends on the
/// error value alone.
pub uninterp spec fn error_text(e: rusqlite::Error) -> Seq<char>;

/// Relies on rusqlite::Error's Display implementation for the text after
/// the colon-space: that text is a function of the error value alone.
#[verifier::external_body]
pub(crate) fn describe_error(prefix: &str, e: &rusqlite::Error) -> (r: String)
    ensures
        r@ == prefix@ + ": "@ + error_text(*e),
{
    format!("{}: {}", prefix, e)
}

} // verus!
