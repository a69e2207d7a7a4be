use vstd::prelude::*;
use crate::todo::TodoView;

verus! {

/// One column of the `todos` table, as the storage engine reports it:
/// the column's name, its declared type, and whether it carries a
/// NOT NULL constraint.
#[verifier::ext_equal]
pub struct ColumnView {
    pub name: Seq<char>,
    pub ctype: Seq<char>,
    pub notnull: bool,
}

/// The nullable text column that holds a task's due date.
pub open spec fn due_date_column() -> ColumnView {
    ColumnView { name: "due_date"@, ctype: "TEXT"@, notnull: false }
}

/// The column set of a freshly created `todos` table: an integer primary
/// key, a required text description, a required completion flag that
/// defaults to false, and a nullable text due date.
pub open spec fn full_schema() -> Seq<ColumnView> {
    seq![
        ColumnView { name: "id"@, ctype: "INTEGER"@, notnull: false },
        ColumnView { name: "task"@, ctype: "TEXT"@, notnull: true },
        ColumnView { name: "completed"@, ctype: "BOOLEAN"@, notnull: true },
        due_date_column(),
    ]
}

/// Whether some column of `cols` is called `name`.
pub open spec fn has_column(cols: Seq<ColumnView>, name: Seq<char>) -> bool {
    exists|i: int| 0 <= i < cols.len() && (#[trigger] cols[i]).name == name
}

/// How many columns of `cols` are called `name`.
pub open spec fn count_column(cols: Seq<ColumnView>, name: Seq<char>) -> nat
    decreases cols.len(),
{
    if cols.len() == 0 {
        0
    } else {
        count_column(cols.drop_last(), name) + if cols.last().name == name {
            1nat
        } else {
            0nat
        }
    }
}

/// The column set after schema initialization: a missing table (no
/// columns) is created with the full schema; a table that lacks the
/// due-date column gains it as its last column; any other table is left
/// alone.
pub open spec fn migrated_columns(pre: Seq<ColumnView>) -> Seq<ColumnView> {
    if pre.len() == 0 {
        full_schema()
    } else if has_column(pre, "due_date"@) {
        pre
    } else {
        pre.push(due_date_column())
    }
}

/// Every row of `rows`, with its due date made empty.
pub open spec fn cleared_due_dates(rows: Seq<TodoView>) -> Seq<TodoView> {
    rows.map(
        |i: int, t: TodoView|
            (TodoView { id: t.id, task: t.task, completed: t.completed, due_date: None }),
    )
}

/// The rows after schema initialization: a missing table starts empty; a
/// table that already had the due-date column keeps its rows as they are;
/// a table that just gained the column keeps every row, the new field
/// empty.
pub open spec fn migrated_rows(pre_rows: Seq<TodoView>, pre_cols: Seq<ColumnView>) -> Seq<
    TodoView,
> {
    if pre_cols.len() == 0 {
        Seq::<TodoView>::empty()
    } else if has_column(pre_cols, "due_date"@) {
        pre_rows
    } else {
        cleared_due_dates(pre_rows)
    }
}

/// Whether some row of `rows` has the id `id`.
pub open spec fn has_row(rows: Seq<TodoView>, id: i64) -> bool {
    exists|i: int| 0 <= i < rows.len() && (#[trigger] rows[i]).id == id
}

/// `id` is larger than the id of every row of `rows`.
pub open spec fn fresh_id(rows: Seq<TodoView>, id: i64) -> bool {
    forall|i: int| 0 <= i < rows.len() ==> (#[trigger] rows[i]).id < id
}

/// The rows after a task is created: one new row at the end, not yet
/// completed, holding the given description and due date under the id the
/// storage engine assigned.
pub open spec fn after_add(
    rows: Seq<TodoView>,
    id: i64,
    task: Seq<char>,
    due_date: Option<Seq<char>>,
) -> Seq<TodoView> {
    rows.push(TodoView { id, task, completed: false, due_date })
}

/// The rows after the completion flag of `id` is set to `completed`:
/// every row with that id takes the new flag, every other row is
/// untouched, and no row moves.
pub open spec fn after_update(rows: Seq<TodoView>, id: i64, completed: bool) -> Seq<TodoView> {
    rows.map(
        |i: int, t: TodoView|
            if t.id == id {
                (TodoView { id: t.id, task: t.task, completed, due_date: t.due_date })
            } else {
                t
            },
    )
}

/// The rows after task `id` is deleted: every row with that id is gone,
/// the rest keep their order.
pub open spec fn after_delete(rows: Seq<TodoView>, id: i64) -> Seq<TodoView> {
    rows.filter(|t: TodoView| t.id != id)
}

} // verus!
