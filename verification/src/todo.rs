use vstd::prelude::*;

verus! {

/// One task record, with the four fields the `todos` table stores.
#[derive(Debug)]
pub struct Todo {
    pub id: i64,
    pub task: String,
    pub completed: bool,
    pub due_date: Option<String>,
}

/// The mathematical value of a task record: its id, the characters of its
/// description, its completion flag, and the characters of its optional
/// due date.
#[verifier::ext_equal]
pub struct TodoView {
    pub id: i64,
    pub task: Seq<char>,
    pub completed: bool,
    pub due_date: Option<Seq<char>>,
}

/// The characters of an optional string.
pub open spec fn opt_str_view(s: Option<String>) -> Option<Seq<char>> {
    match s {
        Some(t) => Some(t@),
        None => None,
    }
}

impl View for Todo {
    type V = TodoView;

    open spec fn view(&self) -> TodoView {
        TodoView {
            id: self.id,
            task: self.task@,
            completed: self.completed,
            due_date: opt_str_view(self.due_date),
        }
    }
}

} // verus!
