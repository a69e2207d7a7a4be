use vstd::prelude::*;
use crate::table::{
    after_add, after_delete, after_update, count_column, due_date_column, fresh_id, full_schema,
    has_column, has_row, migrated_columns, migrated_rows, ColumnView,
};
use crate::todo::TodoView;

verus! {

/// Counting a name over a longer column list counts the old list and
/// then the appended column.
proof fn lemma_count_column_push(cols: Seq<ColumnView>, c: ColumnView, name: Seq<char>)
    ensures
        count_column(cols.push(c), name) == count_column(cols, name) + if c.name == name {
            1nat
        } else {
            0nat
        },
{
    assert(cols.push(c).drop_last() =~= cols);
    assert(cols.push(c).last() == c);
}

/// A column list holds a name exactly when the name's count is positive.
proof fn lemma_has_column_count(cols: Seq<ColumnView>, name: Seq<char>)
    ensures
        has_column(cols, name) <==> count_column(cols, name) >= 1,
    decreases cols.len(),
{
    if cols.len() == 0 {
        assert(!has_column(cols, name));
    } else {
        let pre = cols.drop_last();
        lemma_has_column_count(pre, name);
        if cols.last().name == name {
            assert(cols[cols.len() - 1].name == name);
            assert(has_column(cols, name));
        } else {
            if has_column(cols, name) {
                let i = choose|i: int| 0 <= i < cols.len() && (#[trigger] cols[i]).name == name;
                assert(pre[i].name == name);
                assert(has_column(pre, name));
            }
            if has_column(pre, name) {
                let i = choose|i: int| 0 <= i < pre.len() && (#[trigger] pre[i]).name == name;
                assert(cols[i].name == name);
                assert(has_column(cols, name));
            }
        }
    }
}

/// A freshly created table carries the due-date column exactly once.
proof fn lemma_count_full_schema()
    ensures
        count_column(full_schema(), "due_date"@) == 1,
{
    reveal_strlit("id");
    reveal_strlit("task");
    reveal_strlit("completed");
    reveal_strlit("due_date");
    let a = ColumnView { name: "id"@, ctype: "INTEGER"@, notnull: false };
    let b = ColumnView { name: "task"@, ctype: "TEXT"@, notnull: true };
    let c = ColumnView { name: "completed"@, ctype: "BOOLEAN"@, notnull: true };
    let d = due_date_column();
    assert("id"@.len() == 2 && "task"@.len() == 4 && "completed"@.len() == 9 && "due_date"@.len()
        == 8);
    assert(a.name != d.name && b.name != d.name && c.name != d.name);
    assert(full_schema().drop_last() =~= seq![a, b, c]);
    assert(seq![a, b, c].drop_last() =~= seq![a, b]);
    assert(seq![a, b].drop_last() =~= seq![a]);
    assert(seq![a].drop_last() =~= Seq::<ColumnView>::empty());
    assert(count_column(Seq::<ColumnView>::empty(), "due_date"@) == 0);
    assert(count_column(seq![a], "due_date"@) == 0);
    assert(count_column(seq![a, b], "due_date"@) == 0);
    assert(count_column(seq![a, b, c], "due_date"@) == 0);
    assert(count_column(full_schema(), "due_date"@) == 1);
}

/// Initializing the schema twice is the same as initializing it once:
/// the second run changes neither the columns nor the rows.
pub proof fn lemma_initialize_idempotent(cols: Seq<ColumnView>, rows: Seq<TodoView>)
    ensures
        migrated_columns(migrated_columns(cols)) == migrated_columns(cols),
        migrated_rows(migrated_rows(rows, cols), migrated_columns(cols)) == migrated_rows(
            rows,
            cols,
        ),
{
    let mc = migrated_columns(cols);
    if cols.len() == 0 {
        assert(mc[3].name == "due_date"@);
        assert(has_column(mc, "due_date"@));
    } else if has_column(cols, "due_date"@) {
    } else {
        assert(mc[cols.len() as int].name == "due_date"@);
        assert(has_column(mc, "due_date"@));
    }
}

/// After initialization the table carries the due-date column exactly
/// once, as long as it did not already carry it more than once (a real
/// table never names two columns alike).
pub proof fn lemma_initialize_single_due_date(cols: Seq<ColumnView>)
    requires
        count_column(cols, "due_date"@) <= 1,
    ensures
        count_column(migrated_columns(cols), "due_date"@) == 1,
{
    if cols.len() == 0 {
        lemma_count_full_schema();
    } else if has_column(cols, "due_date"@) {
        lemma_has_column_count(cols, "due_date"@);
    } else {
        lemma_has_column_count(cols, "due_date"@);
        lemma_count_column_push(cols, due_date_column(), "due_date"@);
    }
}

/// Once initialization has run, running it again still leaves exactly
/// one due-date column, under the same real-table premise: no table
/// names two columns alike before the first run.
pub proof fn lemma_reinitialize_single_due_date(cols: Seq<ColumnView>)
    requires
        count_column(cols, "due_date"@) <= 1,
    ensures
        count_column(migrated_columns(migrated_columns(cols)), "due_date"@) == 1,
{
    lemma_initialize_single_due_date(cols);
    lemma_initialize_idempotent(cols, Seq::<TodoView>::empty());
}

/// A table from before the due-date column, once initialized, has gained
/// exactly that column, nullable and of text type, at the end; every row
/// keeps its id, description and completion flag, with no due date yet.
pub proof fn lemma_migration_preserves_rows(cols: Seq<ColumnView>, rows: Seq<TodoView>)
    requires
        cols.len() > 0,
        !has_column(cols, "due_date"@),
    ensures
        migrated_columns(cols) == cols.push(due_date_column()),
        migrated_rows(rows, cols).len() == rows.len(),
        forall|i: int|
            0 <= i < rows.len() ==> {
                let t = #[trigger] migrated_rows(rows, cols)[i];
                t.id == rows[i].id && t.task == rows[i].task && t.completed == rows[i].completed
                    && t.due_date is None
            },
{
}

/// Creating a task and then listing shows every old row unchanged and,
/// at the end, exactly one new row: the given description and due date,
/// not yet completed, under an id that no old row has.
pub proof fn lemma_create_then_list(
    rows: Seq<TodoView>,
    id: i64,
    task: Seq<char>,
    due_date: Option<Seq<char>>,
)
    requires
        fresh_id(rows, id),
    ensures
        after_add(rows, id, task, due_date).len() == rows.len() + 1,
        after_add(rows, id, task, due_date).last() == (TodoView {
            id,
            task,
            completed: false,
            due_date,
        }),
        forall|i: int| 0 <= i < rows.len() ==> after_add(rows, id, task, due_date)[i] == rows[i],
        forall|i: int| 0 <= i < rows.len() ==> (#[trigger] rows[i]).id != id,
{
}

/// Two creations keep insertion order: the two new rows stand at the end
/// in creation order, with the given fields, and their ids are distinct
/// and increase in creation order.
pub proof fn lemma_two_creates_ordered(
    rows: Seq<TodoView>,
    id1: i64,
    task1: Seq<char>,
    due1: Option<Seq<char>>,
    id2: i64,
    task2: Seq<char>,
    due2: Option<Seq<char>>,
)
    requires
        fresh_id(rows, id1),
        fresh_id(after_add(rows, id1, task1, due1), id2),
    ensures
        after_add(after_add(rows, id1, task1, due1), id2, task2, due2).len() == rows.len() + 2,
        after_add(after_add(rows, id1, task1, due1), id2, task2, due2)[rows.len() as int] == (
        TodoView { id: id1, task: task1, completed: false, due_date: due1 }),
        after_add(after_add(rows, id1, task1, due1), id2, task2, due2)[rows.len() as int + 1] == (
        TodoView { id: id2, task: task2, completed: false, due_date: due2 }),
        id1 < id2,
{
    assert(after_add(rows, id1, task1, due1)[rows.len() as int].id == id1);
}

/// Setting a completion flag touches exactly the rows with the given id,
/// and only their flag; when no row has the id, the table is unchanged.
pub proof fn lemma_update_exact(rows: Seq<TodoView>, id: i64, completed: bool)
    ensures
        after_update(rows, id, completed).len() == rows.len(),
        forall|i: int|
            0 <= i < rows.len() && (#[trigger] rows[i]).id == id ==> after_update(
                rows,
                id,
                completed,
            )[i] == (TodoView {
                id: rows[i].id,
                task: rows[i].task,
                completed,
                due_date: rows[i].due_date,
            }),
        forall|i: int|
            0 <= i < rows.len() && (#[trigger] rows[i]).id != id ==> after_update(
                rows,
                id,
                completed,
            )[i] == rows[i],
        !has_row(rows, id) ==> after_update(rows, id, completed) == rows,
{
    if !has_row(rows, id) {
        assert forall|i: int| 0 <= i < rows.len() implies after_update(rows, id, completed)[i]
            == rows[i] by {
            assert(rows[i].id != id);
        }
        assert(after_update(rows, id, completed) =~= rows);
    }
}

/// Deleting with an id that no row has leaves the table unchanged.
pub proof fn lemma_delete_absent_id(rows: Seq<TodoView>, id: i64)
    requires
        !has_row(rows, id),
    ensures
        after_delete(rows, id) == rows,
    decreases rows.len(),
{
    reveal(Seq::filter);
    if rows.len() == 0 {
        assert(after_delete(rows, id) =~= rows);
    } else {
        let pre = rows.drop_last();
        assert forall|i: int| 0 <= i < pre.len() implies (#[trigger] pre[i]).id != id by {
            assert(rows[i].id != id);
        }
        lemma_delete_absent_id(pre, id);
        assert(rows[rows.len() - 1].id != id);
        assert(after_delete(rows, id) =~= pre.push(rows.last()));
        assert(pre.push(rows.last()) =~= rows);
    }
}

/// Deleting removes exactly the matching row: when the table's ids are
/// distinct and row `k` is the one with the given id, what remains is
/// every row before `k` and every row after it, in their old order, and
/// no remaining row has the id.
pub proof fn lemma_delete_exact(rows: Seq<TodoView>, id: i64, k: int)
    requires
        0 <= k < rows.len(),
        rows[k].id == id,
        forall|i: int, j: int|
            0 <= i < j < rows.len() ==> (#[trigger] rows[i]).id != (#[trigger] rows[j]).id,
    ensures
        after_delete(rows, id) == rows.subrange(0, k) + rows.subrange(k + 1, rows.len() as int),
        forall|i: int|
            0 <= i < after_delete(rows, id).len() ==> (#[trigger] after_delete(rows, id)[i]).id
                != id,
    decreases rows.len(),
{
    reveal(Seq::filter);
    broadcast use vstd::seq_lib::group_filter_ensures;

    let pre = rows.drop_last();
    if k == rows.len() - 1 {
        assert forall|i: int| 0 <= i < pre.len() implies (#[trigger] pre[i]).id != id by {
            assert(rows[i].id != rows[k].id);
        }
        assert(!has_row(pre, id));
        lemma_delete_absent_id(pre, id);
        assert(after_delete(rows, id) =~= pre);
        assert(rows.subrange(0, k) =~= pre);
        assert(rows.subrange(k + 1, rows.len() as int) =~= Seq::<TodoView>::empty());
        assert(pre + Seq::<TodoView>::empty() =~= pre);
    } else {
        assert(pre[k].id == id);
        lemma_delete_exact(pre, id, k);
        assert(rows.last().id != rows[k].id);
        assert(after_delete(rows, id) =~= after_delete(pre, id).push(rows.last()));
        assert((pre.subrange(0, k) + pre.subrange(k + 1, pre.len() as int)).push(rows.last())
            =~= rows.subrange(0, k) + rows.subrange(k + 1, rows.len() as int));
    }
    assert forall|i: int| 0 <= i < after_delete(rows, id).len() implies (#[trigger] after_delete(
        rows,
        id,
    )[i]).id != id by {
        rows.lemma_filter_pred(|t: TodoView| t.id != id, i);
    }
}

} // verus!
