use vstd::prelude::*;

verus! {

/// The mathematical value of one task.
pub struct TodoView {
    pub id: int,
    pub title: Seq<char>,
    pub completed: bool,
    pub deleted: bool,
}

/// One task of the list. `deleted` marks a task as moved to the trash; the
/// task itself is never erased.
#[derive(Debug)]
pub struct Todo {
    pub id: i16,
    pub title: String,
    pub completed: bool,
    pub deleted: bool,
}

impl View for Todo {
    type V = TodoView;

    open spec fn view(&self) -> TodoView {
        TodoView {
            id: self.id as int,
            title: self.title@,
            completed: self.completed,
            deleted: self.deleted,
        }
    }
}

impl Todo {
    /// A fresh task: neither completed nor deleted.
    pub fn new(id: i16, title: &str) -> (r: Todo)
        ensures
            r@ == (TodoView { id: id as int, title: title@, completed: false, deleted: false }),
    {
        Todo { id, title: title.to_string(), completed: false, deleted: false }
    }

    /// A copy that keeps every field.
    pub fn duplicate(&self) -> (r: Todo)
        ensures
            r@ == self@,
    {
        Todo {
            id: self.id,
            title: self.title.clone(),
            completed: self.completed,
            deleted: self.deleted,
        }
    }
}

} // verus!
