use todo_cli::store::TodoList;
use todo_cli::todo::Todo;

fn fields(t: &Todo) -> (i16, String, bool, bool) {
    (t.id, t.title.clone(), t.completed, t.deleted)
}

fn snapshot(list: &TodoList) -> Vec<(i16, String, bool, bool)> {
    list.todos.iter().map(fields).collect()
}

#[test]
fn add_assigns_length_plus_one() {
    let mut list = TodoList::new();
    list.add_todo("first");
    list.add_todo("second");
    assert_eq!(
        snapshot(&list),
        vec![
            (1, "first".to_string(), false, false),
            (2, "second".to_string(), false, false)
        ]
    );
}

#[test]
fn add_ignores_existing_ids() {
    let mut list = TodoList::from_todos(vec![Todo::new(9, "nine"), Todo::new(4, "four")]);
    list.add_todo("third");
    assert_eq!(list.todos[2].id, 3);
    assert_eq!(list.len(), 3);
}

#[test]
fn views_split_by_deleted_flag() {
    let mut list = TodoList::new();
    list.add_todo("a");
    list.add_todo("b");
    list.add_todo("c");
    list.remove_todo(2);
    let active: Vec<i16> = list.active_view().iter().map(|t| t.id).collect();
    let trash: Vec<i16> = list.trash_view().iter().map(|t| t.id).collect();
    assert_eq!(active, vec![1, 3]);
    assert_eq!(trash, vec![2]);
}

#[test]
fn remove_then_recover_restores_task() {
    let mut list = TodoList::new();
    list.add_todo("a");
    list.mark_done(1);
    let before = snapshot(&list);
    list.remove_todo(1);
    assert!(list.todos[0].deleted);
    list.recover_todo(1);
    assert_eq!(snapshot(&list), before);
    assert_eq!(list.active_view().len(), 1);
}

#[test]
fn updates_on_missing_id_change_nothing() {
    let mut list = TodoList::new();
    list.add_todo("a");
    list.add_todo("b");
    let before = snapshot(&list);
    list.mark_done(7);
    list.mark_undone(7);
    list.edit_todo(7, "x");
    list.remove_todo(-1);
    list.recover_todo(0);
    assert_eq!(snapshot(&list), before);
}

#[test]
fn mark_done_twice_same_as_once() {
    let mut once = TodoList::new();
    once.add_todo("a");
    once.mark_done(1);
    let mut twice = TodoList::new();
    twice.add_todo("a");
    twice.mark_done(1);
    twice.mark_done(1);
    assert_eq!(snapshot(&once), snapshot(&twice));
    once.remove_todo(1);
    twice.remove_todo(1);
    twice.remove_todo(1);
    assert_eq!(snapshot(&once), snapshot(&twice));
}

#[test]
fn mark_undone_and_edit() {
    let mut list = TodoList::new();
    list.add_todo("a");
    list.mark_done(1);
    list.mark_undone(1);
    list.edit_todo(1, "renamed");
    assert_eq!(snapshot(&list), vec![(1, "renamed".to_string(), false, false)]);
}

#[test]
fn update_touches_first_of_duplicate_ids() {
    let mut list = TodoList::from_todos(vec![Todo::new(2, "x"), Todo::new(2, "y")]);
    list.mark_done(2);
    assert!(list.todos[0].completed);
    assert!(!list.todos[1].completed);
}

#[test]
fn undone_and_recover_twice_same_as_once() {
    let mut once = TodoList::new();
    once.add_todo("a");
    once.add_todo("b");
    once.mark_done(2);
    once.remove_todo(2);
    let mut twice = TodoList::new();
    twice.add_todo("a");
    twice.add_todo("b");
    twice.mark_done(2);
    twice.remove_todo(2);
    once.mark_undone(2);
    twice.mark_undone(2);
    twice.mark_undone(2);
    once.recover_todo(2);
    twice.recover_todo(2);
    twice.recover_todo(2);
    assert_eq!(snapshot(&once), snapshot(&twice));
    assert_eq!(snapshot(&once)[1], (2, "b".to_string(), false, false));
}
