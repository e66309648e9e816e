use todo_cli::command::{parse_words, Command, Reply, Screen};
use todo_cli::store::TodoList;

fn ids_titles(list: &TodoList) -> Vec<(i16, String, bool, bool)> {
    list.todos.iter().map(|t| (t.id, t.title.clone(), t.completed, t.deleted)).collect()
}

fn run(list: &mut TodoList, line: &str) -> Reply {
    list.interpret(line).expect("command accepted")
}

#[test]
fn add_shows_new_task_in_active_view() {
    let mut list = TodoList::new();
    let reply = run(&mut list, "add Buy milk");
    assert_eq!(reply, Reply { screen: Screen::Nothing, persist: true, rerender: true });
    let active: Vec<(i16, String, bool, bool)> = list
        .active_view()
        .iter()
        .map(|t| (t.id, t.title.clone(), t.completed, t.deleted))
        .collect();
    assert_eq!(active, vec![(1, "Buy milk".to_string(), false, false)]);
}

#[test]
fn done_marks_completed() {
    let mut list = TodoList::new();
    run(&mut list, "add Buy milk");
    run(&mut list, "done 1");
    let active = list.active_view();
    assert_eq!(active.len(), 1);
    assert_eq!(active[0].id, 1);
    assert!(active[0].completed);
}

#[test]
fn remove_moves_to_trash() {
    let mut list = TodoList::new();
    run(&mut list, "add Buy milk");
    run(&mut list, "done 1");
    run(&mut list, "remove 1");
    assert!(list.active_view().is_empty());
    let trash = list.trash_view();
    assert_eq!(trash.len(), 1);
    assert_eq!(trash[0].id, 1);
    assert!(trash[0].deleted);
    assert_eq!(trash[0].title, "Buy milk");
}

#[test]
fn non_numeric_id_is_dropped() {
    let mut list = TodoList::new();
    run(&mut list, "add Buy milk");
    let before = ids_titles(&list);
    let reply = run(&mut list, "done abc");
    assert_eq!(reply, Reply { screen: Screen::Nothing, persist: false, rerender: true });
    assert_eq!(ids_titles(&list), before);
}

#[test]
fn ids_follow_length_after_removal() {
    let mut list = TodoList::new();
    run(&mut list, "add Task A");
    run(&mut list, "add Task B");
    run(&mut list, "remove 1");
    run(&mut list, "add Task C");
    let ids: Vec<i16> = list.todos.iter().map(|t| t.id).collect();
    assert_eq!(ids, vec![1, 2, 3]);
    assert_eq!(list.todos[2].title, "Task C");
}

#[test]
fn out_of_range_id_is_dropped() {
    let mut list = TodoList::new();
    run(&mut list, "add a");
    let reply = run(&mut list, "done 40000");
    assert!(!reply.persist);
    assert!(!list.todos[0].completed);
}

#[test]
fn signed_ids_parse() {
    let mut list = TodoList::new();
    run(&mut list, "add a");
    run(&mut list, "done +1");
    assert!(list.todos[0].completed);
    let reply = run(&mut list, "undone -1");
    assert!(reply.persist);
    assert!(list.todos[0].completed);
}

#[test]
fn title_words_joined_by_single_space() {
    let mut list = TodoList::new();
    run(&mut list, "  add   Buy \t fresh   milk  ");
    assert_eq!(list.todos[0].title, "Buy fresh milk");
    run(&mut list, "edit 1 Buy   bread");
    assert_eq!(list.todos[0].title, "Buy bread");
}

#[test]
fn edit_without_title_clears_it() {
    let mut list = TodoList::new();
    run(&mut list, "add a");
    run(&mut list, "edit 1 ");
    assert_eq!(list.todos[0].title, "");
    run(&mut list, "edit 1 b");
    let words = vec!["edit".to_string(), "1".to_string(), "".to_string()];
    let reply = list.interpret_words(&words).expect("accepted");
    assert!(reply.persist);
    assert_eq!(list.todos[0].title, "");
}

#[test]
fn single_word_commands() {
    let mut list = TodoList::new();
    assert_eq!(run(&mut list, "list"), Reply { screen: Screen::Active, persist: false, rerender: false });
    assert_eq!(run(&mut list, "trash"), Reply { screen: Screen::Trash, persist: false, rerender: true });
    assert_eq!(run(&mut list, "help"), Reply { screen: Screen::Help, persist: false, rerender: true });
    assert_eq!(run(&mut list, "close").screen, Screen::Quit);
}

#[test]
fn invalid_lines() {
    let mut list = TodoList::new();
    assert_eq!(run(&mut list, ""), Reply { screen: Screen::Invalid, persist: false, rerender: true });
    assert_eq!(run(&mut list, "   \n"), Reply { screen: Screen::Invalid, persist: false, rerender: true });
    assert_eq!(run(&mut list, "add"), Reply { screen: Screen::Invalid, persist: false, rerender: true });
    assert_eq!(run(&mut list, "frobnicate 1"), Reply { screen: Screen::Invalid, persist: false, rerender: true });
    assert_eq!(run(&mut list, "list all"), Reply { screen: Screen::Invalid, persist: false, rerender: false });
    assert_eq!(run(&mut list, "List"), Reply { screen: Screen::Invalid, persist: false, rerender: true });
    assert_eq!(list.len(), 0);
}

#[test]
fn parse_words_names_commands() {
    let w = |s: &[&str]| s.iter().map(|x| x.to_string()).collect::<Vec<String>>();
    assert!(matches!(parse_words(&w(&["recover", "3"])), Command::Recover(3)));
    assert!(matches!(parse_words(&w(&["remove", "-32768"])), Command::Remove(-32768)));
    assert!(matches!(parse_words(&w(&["remove", "32768"])), Command::Ignored));
    assert!(matches!(parse_words(&w(&["done", "1x"])), Command::Ignored));
    assert!(matches!(parse_words(&w(&["done", "+"])), Command::Ignored));
    assert!(matches!(parse_words(&w(&["done", "007"])), Command::Done(7)));
    match parse_words(&w(&["add", "a", "b"])) {
        Command::Add(t) => assert_eq!(t, "a b"),
        other => panic!("unexpected {:?}", other),
    }
    match parse_words(&w(&["edit", "2", "x", "y"])) {
        Command::Edit(2, t) => assert_eq!(t, "x y"),
        other => panic!("unexpected {:?}", other),
    }
}

#[test]
fn full_list_refuses_add() {
    let mut list = TodoList::new();
    for _ in 0..32767 {
        list.add_todo("t");
    }
    assert_eq!(list.todos[32766].id, 32767);
    assert!(list.interpret("add one more").is_none());
    assert_eq!(list.len(), 32767);
    let reply = run(&mut list, "done 32767");
    assert!(reply.persist);
    assert!(list.todos[32766].completed);
}
