use vstd::prelude::*;
use crate::todo::{Todo, TodoView};

verus! {

/// The largest id that a task can carry.
pub const MAX_ID: i16 = 32767;

/// `i` is the first position of `s` whose task has id `id`.
pub open spec fn is_first(s: Seq<TodoView>, id: int, i: int) -> bool {
    &&& 0 <= i < s.len()
    &&& s[i].id == id
    &&& forall|j: int| 0 <= j < i ==> s[j].id != id
}

/// Some task of `s` has id `id`.
pub open spec fn contains_id(s: Seq<TodoView>, id: int) -> bool {
    exists|i: int| 0 <= i < s.len() && s[i].id == id
}

/// The position of the first task with id `id`, or -1 where there is none.
pub open spec fn first_index(s: Seq<TodoView>, id: int) -> int {
    if exists|i: int| is_first(s, id, i) {
        choose|i: int| is_first(s, id, i)
    } else {
        -1
    }
}

/// `s` with the task at position `i` replaced by `t`, where `i` is the first
/// position holding id `id`; `s` itself where no task has that id.
pub open spec fn replace_first(s: Seq<TodoView>, id: int, t: TodoView) -> Seq<TodoView> {
    let i = first_index(s, id);
    if 0 <= i {
        s.update(i, t)
    } else {
        s
    }
}

/// The list after setting `completed` to `v` on the task with id `id`.
pub open spec fn set_completed(s: Seq<TodoView>, id: int, v: bool) -> Seq<TodoView> {
    let t = s[first_index(s, id)];
    replace_first(s, id, TodoView { completed: v, ..t })
}

/// The list after setting `deleted` to `v` on the task with id `id`.
pub open spec fn set_deleted(s: Seq<TodoView>, id: int, v: bool) -> Seq<TodoView> {
    let t = s[first_index(s, id)];
    replace_first(s, id, TodoView { deleted: v, ..t })
}

/// The list after giving the task with id `id` the title `title`.
pub open spec fn set_title(s: Seq<TodoView>, id: int, title: Seq<char>) -> Seq<TodoView> {
    let t = s[first_index(s, id)];
    replace_first(s, id, TodoView { title: title, ..t })
}

/// The list after appending a new task titled `title`: its id is the length
/// of the list plus one, whatever ids the list already holds.
pub open spec fn with_added(s: Seq<TodoView>, title: Seq<char>) -> Seq<TodoView> {
    s.push(TodoView { id: s.len() as int + 1, title: title, completed: false, deleted: false })
}

/// The tasks of `s` whose `deleted` flag is `deleted`, in the order of `s`.
pub open spec fn with_deleted_flag(s: Seq<TodoView>, deleted: bool) -> Seq<TodoView>
    decreases s.len(),
{
    if s.len() == 0 {
        Seq::empty()
    } else {
        let rest = with_deleted_flag(s.drop_last(), deleted);
        if s.last().deleted == deleted {
            rest.push(s.last())
        } else {
            rest
        }
    }
}

/// The active view: the tasks that are not deleted, in list order.
pub open spec fn active_of(s: Seq<TodoView>) -> Seq<TodoView> {
    with_deleted_flag(s, false)
}

/// The trash view: the deleted tasks, in list order.
pub open spec fn trash_of(s: Seq<TodoView>) -> Seq<TodoView> {
    with_deleted_flag(s, true)
}

/// The shape of a list built by adding tasks one at a time: the task at
/// position `i` has id `i + 1`, and every id fits in an `i16`.
pub open spec fn numbered(s: Seq<TodoView>) -> bool {
    &&& s.len() <= MAX_ID
    &&& forall|i: int| 0 <= i < s.len() ==> s[i].id == i + 1
}

/// All ids of `s` are distinct.
pub open spec fn ids_unique(s: Seq<TodoView>) -> bool {
    forall|i: int, j: int| 0 <= i < s.len() && 0 <= j < s.len() && i != j ==> s[i].id != s[j].id
}

/// The ordered list of tasks. Every task ever created stays in it; deletion
/// only sets a flag.
pub struct TodoList {
    pub todos: Vec<Todo>,
}

impl View for TodoList {
    type V = Seq<TodoView>;

    open spec fn view(&self) -> Seq<TodoView> {
        self.todos@.map_values(|t: Todo| t@)
    }
}

impl TodoList {
    /// An empty list.
    pub fn new() -> (r: TodoList)
        ensures
            r@ == Seq::<TodoView>::empty(),
    {
        TodoList { todos: Vec::new() }
    }

    /// The list that holds `todos`, in their order.
    pub fn from_todos(todos: Vec<Todo>) -> (r: TodoList)
        ensures
            r@ == todos@.map_values(|t: Todo| t@),
    {
        TodoList { todos }
    }

    /// The number of tasks, deleted ones included.
    pub fn len(&self) -> (r: usize)
        ensures
            r == self@.len(),
    {
        self.todos.len()
    }

    /// The position of the first task with id `id`.
    fn position(&self, id: i16) -> (r: Option<usize>)
        ensures
            match r {
                Some(i) => is_first(self@, id as int, i as int) && first_index(self@, id as int)
                    == i as int,
                None => !contains_id(self@, id as int) && first_index(self@, id as int) == -1,
            },
    {
        let mut i: usize = 0;
        while i < self.todos.len()
            invariant
                i <= self.todos@.len(),
                forall|j: int| 0 <= j < i ==> self@[j].id != id as int,
            decreases self.todos@.len() - i,
        {
            if self.todos[i].id == id {
                proof {
                    lemma_first_unique(self@, id as int, i as int);
                }
                return Some(i);
            }
            i = i + 1;
        }
        None
    }

    /// Appends a new task titled `title`, with id the current length plus one,
    /// neither completed nor deleted.
    pub fn add_todo(&mut self, title: &str)
        requires
            old(self)@.len() < MAX_ID,
        ensures
            final(self)@ == with_added(old(self)@, title@),
    {
        let new_id: i16 = self.todos.len() as i16 + 1;
        self.todos.push(Todo::new(new_id, title));
        proof {
            assert(final(self)@ =~= with_added(old(self)@, title@));
        }
    }

    /// Moves the task with id `todo_id` to the trash; no change where there is none.
    pub fn remove_todo(&mut self, todo_id: i16)
        ensures
            final(self)@ == set_deleted(old(self)@, todo_id as int, true),
    {
        if let Some(i) = self.position(todo_id) {
            self.todos[i].deleted = true;
            proof {
                assert(final(self)@ =~= set_deleted(old(self)@, todo_id as int, true));
            }
        }
    }

    /// Brings the task with id `todo_id` back from the trash; no change where
    /// there is none.
    pub fn recover_todo(&mut self, todo_id: i16)
        ensures
            final(self)@ == set_deleted(old(self)@, todo_id as int, false),
    {
        if let Some(i) = self.position(todo_id) {
            self.todos[i].deleted = false;
            proof {
                assert(final(self)@ =~= set_deleted(old(self)@, todo_id as int, false));
            }
        }
    }

    /// Marks the task with id `todo_id` completed; no change where there is none.
    pub fn mark_done(&mut self, todo_id: i16)
        ensures
            final(self)@ == set_completed(old(self)@, todo_id as int, true),
    {
        if let Some(i) = self.position(todo_id) {
            self.todos[i].completed = true;
            proof {
                assert(final(self)@ =~= set_completed(old(self)@, todo_id as int, true));
            }
        }
    }

    /// Marks the task with id `todo_id` not completed; no change where there is none.
    pub fn mark_undone(&mut self, todo_id: i16)
        ensures
            final(self)@ == set_completed(old(self)@, todo_id as int, false),
    {
        if let Some(i) = self.position(todo_id) {
            self.todos[i].completed = false;
            proof {
                assert(final(self)@ =~= set_completed(old(self)@, todo_id as int, false));
            }
        }
    }

    /// Gives the task with id `todo_id` the title `new_title`; no change where
    /// there is none.
    pub fn edit_todo(&mut self, todo_id: i16, new_title: &str)
        ensures
            final(self)@ == set_title(old(self)@, todo_id as int, new_title@),
    {
        if let Some(i) = self.position(todo_id) {
            self.todos[i].title = new_title.to_string();
            proof {
                assert(final(self)@ =~= set_title(old(self)@, todo_id as int, new_title@));
            }
        }
    }

    /// The tasks whose `deleted` flag is `deleted`, in list order.
    fn select(&self, deleted: bool) -> (r: Vec<Todo>)
        ensures
            r@.map_values(|t: Todo| t@) == with_deleted_flag(self@, deleted),
    {
        let mut out: Vec<Todo> = Vec::new();
        let mut i: usize = 0;
        while i < self.todos.len()
            invariant
                i <= self.todos@.len(),
                out@.map_values(|t: Todo| t@) == with_deleted_flag(self@.take(i as int), deleted),
            decreases self.todos@.len() - i,
        {
            proof {
                assert(self@.take(i as int + 1).drop_last() =~= self@.take(i as int));
            }
            if self.todos[i].deleted == deleted {
                out.push(self.todos[i].duplicate());
                proof {
                    assert(out@.map_values(|t: Todo| t@) =~= with_deleted_flag(self@.take(i as int), deleted).push(self@[i as int]));
                }
            }
            i = i + 1;
        }
        proof {
            assert(self@.take(self.todos@.len() as int) =~= self@);
        }
        out
    }

    /// The active view: the tasks not deleted, in list order.
    pub fn active_view(&self) -> (r: Vec<Todo>)
        ensures
            r@.map_values(|t: Todo| t@) == active_of(self@),
    {
        self.select(false)
    }

    /// The trash view: the deleted tasks, in list order.
    pub fn trash_view(&self) -> (r: Vec<Todo>)
        ensures
            r@.map_values(|t: Todo| t@) == trash_of(self@),
    {
        self.select(true)
    }
}

/// The first position holding an id is the one that `first_index` names.
pub proof fn lemma_first_unique(s: Seq<TodoView>, id: int, i: int)
    requires
        is_first(s, id, i),
    ensures
        first_index(s, id) == i,
{
    let k = choose|k: int| is_first(s, id, k);
    assert(is_first(s, id, k));
    if k < i {
        assert(s[k].id != id);
    } else if i < k {
        assert(s[i].id != id);
    }
}

} // verus!
