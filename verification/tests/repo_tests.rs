use rusqlite::Connection;
use todo_store::repo::{add_todo, delete_todo, get_todos, update_todo_status};
use todo_store::schema::initialize_database;
use todo_store::todo::Todo;

#[test]
fn test_add_and_get_todos_with_due_date() -> std::result::Result<(), String> {
    // This test focuses on the SQL logic for adding and retrieving todos with due_dates,
    // using an in-memory database directly.
    let conn = Connection::open_in_memory().map_err(|e| format!("In-memory DB error: {}", e))?;

    // Manually create the schema
    conn.execute(
        "CREATE TABLE todos (
            id INTEGER PRIMARY KEY AUTOINCREMENT,
            task TEXT NOT NULL,
            completed BOOLEAN NOT NULL DEFAULT 0,
            due_date TEXT NULL
        )",
        [],
    )
    .map_err(|e| format!("Schema creation error: {}", e))?;

    // Test adding a todo with a due date
    let task1 = "Todo with due date".to_string();
    let due_date1 = Some("2023-12-31T10:00:00".to_string()); // Using a more standard ISO format
    conn.execute(
        "INSERT INTO todos (task, completed, due_date) VALUES (?1, 0, ?2)",
        (&task1, &due_date1),
    )
    .map_err(|e| format!("Insert 1 error: {}", e))?;

    // Test adding a todo without a due date
    let task2 = "Todo without due date".to_string();
    let due_date2: Option<String> = None;
    conn.execute(
        "INSERT INTO todos (task, completed, due_date) VALUES (?1, 0, ?2)",
        (&task2, &due_date2),
    )
    .map_err(|e| format!("Insert 2 error: {}", e))?;

    // Test retrieving todos
    let mut stmt = conn
        .prepare("SELECT id, task, completed, due_date FROM todos ORDER BY id ASC")
        .map_err(|e| format!("Prepare select error: {}", e))?;

    let todos_iter = stmt
        .query_map([], |row| {
            Ok(Todo {
                id: row.get(0)?,
                task: row.get(1)?,
                completed: row.get(2)?,
                due_date: row.get(3)?,
            })
        })
        .map_err(|e| format!("Query map error: {}", e))?;

    let mut results = Vec::new();
    for todo_result in todos_iter {
        results.push(todo_result.map_err(|e| format!("Row processing error: {}", e))?);
    }

    assert_eq!(results.len(), 2, "Should retrieve two todos");

    assert_eq!(results[0].task, task1, "Task 1 name mismatch");
    assert_eq!(results[0].due_date, due_date1, "Task 1 due_date mismatch");

    assert_eq!(results[1].task, task2, "Task 2 name mismatch");
    assert_eq!(results[1].due_date, due_date2, "Task 2 due_date mismatch");

    Ok(())
}

#[test]
fn create_then_list_shows_one_new_row() {
    let mut conn = Connection::open_in_memory().unwrap();
    initialize_database(&mut conn).unwrap();
    add_todo(&mut conn, "buy milk".to_string(), Some("2024-01-02T03:04:05".to_string())).unwrap();
    let todos = get_todos(&conn).unwrap();
    assert_eq!(todos.len(), 1);
    assert_eq!(todos[0].task, "buy milk");
    assert_eq!(todos[0].due_date, Some("2024-01-02T03:04:05".to_string()));
    assert!(!todos[0].completed, "a new task starts uncompleted");
}

#[test]
fn two_creates_list_in_insertion_order() {
    let mut conn = Connection::open_in_memory().unwrap();
    initialize_database(&mut conn).unwrap();
    add_todo(&mut conn, "Todo with due date".to_string(), Some("2023-12-31T10:00:00".to_string()))
        .unwrap();
    add_todo(&mut conn, "Todo without due date".to_string(), None).unwrap();
    let todos = get_todos(&conn).unwrap();
    assert_eq!(todos.len(), 2);
    assert_eq!(todos[0].task, "Todo with due date");
    assert_eq!(todos[0].due_date, Some("2023-12-31T10:00:00".to_string()));
    assert!(!todos[0].completed);
    assert_eq!(todos[1].task, "Todo without due date");
    assert_eq!(todos[1].due_date, None);
    assert!(!todos[1].completed);
    assert!(todos[0].id < todos[1].id, "ids are distinct and increasing");
}

#[test]
fn empty_task_text_is_accepted() {
    let mut conn = Connection::open_in_memory().unwrap();
    initialize_database(&mut conn).unwrap();
    add_todo(&mut conn, String::new(), None).unwrap();
    let todos = get_todos(&conn).unwrap();
    assert_eq!(todos.len(), 1);
    assert_eq!(todos[0].task, "");
}

#[test]
fn update_flips_exactly_one_row() {
    let mut conn = Connection::open_in_memory().unwrap();
    initialize_database(&mut conn).unwrap();
    add_todo(&mut conn, "first".to_string(), None).unwrap();
    add_todo(&mut conn, "second".to_string(), None).unwrap();
    let before = get_todos(&conn).unwrap();

    update_todo_status(&mut conn, before[0].id, true).unwrap();
    let after = get_todos(&conn).unwrap();
    assert_eq!(after.len(), 2);
    assert!(after[0].completed, "the matching row flips");
    assert!(!after[1].completed, "the other row is untouched");
    assert_eq!(after[0].task, "first");
    assert_eq!(after[1].task, "second");

    update_todo_status(&mut conn, before[0].id, false).unwrap();
    let again = get_todos(&conn).unwrap();
    assert!(!again[0].completed, "the flag can be set back");
}

#[test]
fn update_of_missing_id_changes_nothing() {
    let mut conn = Connection::open_in_memory().unwrap();
    initialize_database(&mut conn).unwrap();
    add_todo(&mut conn, "only".to_string(), None).unwrap();
    let before = get_todos(&conn).unwrap();
    update_todo_status(&mut conn, before[0].id + 1000, true)
        .expect("updating a missing id succeeds without error");
    let after = get_todos(&conn).unwrap();
    assert_eq!(after.len(), 1);
    assert!(!after[0].completed);
    assert_eq!(after[0].task, "only");
}

#[test]
fn delete_removes_exactly_one_row() {
    let mut conn = Connection::open_in_memory().unwrap();
    initialize_database(&mut conn).unwrap();
    add_todo(&mut conn, "keep me".to_string(), None).unwrap();
    add_todo(&mut conn, "drop me".to_string(), None).unwrap();
    let before = get_todos(&conn).unwrap();

    delete_todo(&mut conn, before[1].id).unwrap();
    let after = get_todos(&conn).unwrap();
    assert_eq!(after.len(), 1);
    assert_eq!(after[0].task, "keep me");
    assert!(after.iter().all(|t| t.id != before[1].id), "the deleted id is gone");
}

#[test]
fn delete_of_missing_id_changes_nothing() {
    let mut conn = Connection::open_in_memory().unwrap();
    initialize_database(&mut conn).unwrap();
    add_todo(&mut conn, "still here".to_string(), None).unwrap();
    let before = get_todos(&conn).unwrap();
    delete_todo(&mut conn, before[0].id + 1000)
        .expect("deleting a missing id succeeds without error");
    let after = get_todos(&conn).unwrap();
    assert_eq!(after.len(), 1);
    assert_eq!(after[0].task, "still here");
}

#[test]
fn null_task_violates_not_null_constraint() {
    let mut conn = Connection::open_in_memory().unwrap();
    initialize_database(&mut conn).unwrap();
    let r = conn.execute(
        "INSERT INTO todos (task, completed, due_date) VALUES (?1, 0, ?2)",
        (None::<String>, None::<String>),
    );
    assert!(r.is_err(), "a null task is rejected by the storage engine");
    let msg = r.unwrap_err().to_string();
    assert!(msg.contains("NOT NULL"), "unexpected error: {}", msg);
    assert_eq!(get_todos(&conn).unwrap().len(), 0);
}

#[test]
fn operations_report_errors_when_table_is_missing() {
    let mut conn = Connection::open_in_memory().unwrap();
    // No initialization: the todos table does not exist.
    let add = add_todo(&mut conn, "x".to_string(), None).unwrap_err();
    assert_eq!(
        add, "Failed to add todo: no such table: todos",
        "prefix, colon-space, then the engine's own message"
    );
    let list = get_todos(&conn).unwrap_err();
    assert!(list.starts_with("Failed to prepare statement: "), "got: {}", list);
    let upd = update_todo_status(&mut conn, 1, true).unwrap_err();
    assert!(upd.starts_with("Failed to update todo: "), "got: {}", upd);
    let del = delete_todo(&mut conn, 1).unwrap_err();
    assert!(del.starts_with("Failed to delete todo: "), "got: {}", del);
}

#[test]
fn listing_fails_whole_on_a_row_that_does_not_decode() {
    let mut conn = Connection::open_in_memory().unwrap();
    initialize_database(&mut conn).unwrap();
    add_todo(&mut conn, "fine".to_string(), None).unwrap();
    // A blob in due_date cannot be read back as a string.
    conn.execute(
        "INSERT INTO todos (task, completed, due_date) VALUES ('broken', 0, x'00ff')",
        [],
    )
    .unwrap();
    let r = get_todos(&conn);
    let msg = r.expect_err("no partial listing is returned");
    assert!(msg.starts_with("Failed to process todo row: "), "got: {}", msg);
}
