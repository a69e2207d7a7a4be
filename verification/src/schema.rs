use vstd::prelude::*;
use crate::db::{
    describe_error, error_text, exec_add_due_date_column, exec_create_todos_table,
    query_todos_columns, todos_columns, todos_rows,
};
use crate::table::{full_schema, has_column, migrated_columns, migrated_rows};
use crate::todo::TodoView;

verus! {

/// Whether some entry of `cols` has `wanted` as its first field, the
/// column name.
fn column_list_has(cols: &Vec<(String, String, i64)>, wanted: &String) -> (r: bool)
    ensures
        r <==> exists|i: int| 0 <= i < cols@.len() && (#[trigger] cols@[i]).0@ == wanted@,
{
    let mut j: usize = 0;
    while j < cols.len()
        invariant
            j <= cols@.len(),
            forall|i: int| 0 <= i < j ==> (#[trigger] cols@[i]).0@ != wanted@,
        decreases cols@.len() - j,
    {
        if cols[j].0.eq(wanted) {
            return true;
        }
        j += 1;
    }
    false
}

/// Brings the `todos` table to the current schema: creates it if it is
/// missing, and adds the nullable `due_date` text column to a table from
/// before that column existed.  Running it on an already initialized
/// table changes nothing, so it may run at every startup.  A failed run
/// reports the storage engine's message and leaves the table either as
/// it was or, at worst, freshly created and empty where none existed.
pub fn initialize_database(conn: &mut rusqlite::Connection) -> (r: Result<(), String>)
    ensures
        r is Ok ==> todos_columns(*final(conn)) == migrated_columns(todos_columns(*old(conn))),
        r is Ok ==> todos_rows(*final(conn)) == migrated_rows(
            todos_rows(*old(conn)),
            todos_columns(*old(conn)),
        ),
        r is Err ==> (todos_columns(*final(conn)) == todos_columns(*old(conn)) && todos_rows(
            *final(conn),
        ) == todos_rows(*old(conn))) || (todos_columns(*old(conn)).len() == 0 && todos_columns(
            *final(conn),
        ) == full_schema() && todos_rows(*final(conn)) == Seq::<TodoView>::empty()),
        r matches Err(msg) ==> exists|e: rusqlite::Error|
            msg@ == "Failed to initialize database"@ + ": "@ + #[trigger] error_text(e),
{
    let ghost cols0 = todos_columns(*old(conn));
    match exec_create_todos_table(conn) {
        Ok(()) => {}
        Err(e) => {
            return Err(describe_error("Failed to initialize database", &e));
        }
    }
    let ghost cols1 = todos_columns(*conn);
    let cols = match query_todos_columns(conn) {
        Ok(cols) => cols,
        Err(e) => {
            return Err(describe_error("Failed to initialize database", &e));
        }
    };
    let wanted = String::from_str("due_date");
    let found = column_list_has(&cols, &wanted);
    proof {
        if found {
            let i = choose|i: int| 0 <= i < cols@.len() && (#[trigger] cols@[i]).0@ == wanted@;
            assert(cols1[i].name == "due_date"@);
            assert(has_column(cols1, "due_date"@));
        } else {
            assert forall|i: int| 0 <= i < cols1.len() implies (#[trigger] cols1[i]).name
                != "due_date"@ by {
                assert(cols@[i].0@ == cols1[i].name);
            }
            assert(!has_column(cols1, "due_date"@));
        }
        assert(full_schema()[3].name == "due_date"@);
        if cols0.len() == 0 {
            assert(has_column(cols1, "due_date"@));
        }
    }
    if !found {
        match exec_add_due_date_column(conn) {
            Ok(()) => {}
            Err(e) => {
                return Err(describe_error("Failed to initialize database", &e));
            }
        }
    }
    Ok(())
}

} // verus!
