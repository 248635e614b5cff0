use vstd::prelude::*;

verus! {

/// One row of the todo table, as the listing query returns it.
pub struct TodoRecord {
    pub id: i64,
    pub description: String,
    pub done: bool,
}

/// The mathematical value of a todo row.
pub struct TodoItem {
    pub id: int,
    pub description: Seq<char>,
    pub done: bool,
}

impl View for TodoRecord {
    type V = TodoItem;

    open spec fn view(&self) -> TodoItem {
        TodoItem { id: self.id as int, description: self.description@, done: self.done }
    }
}

impl TodoRecord {
    pub fn new(id: i64, description: String, done: bool) -> (r: TodoRecord)
        ensures
            r.id == id,
            r.description@ == description@,
            r.done == done,
    {
        TodoRecord { id, description, done }
    }
}

/// The values of a sequence of rows, in order.
pub open spec fn items_of(rows: Seq<TodoRecord>) -> Seq<TodoItem> {
    rows.map_values(|r: TodoRecord| r@)
}

} // verus!
