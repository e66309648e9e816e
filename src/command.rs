use vstd::prelude::*;
use crate::parse::{split_words, words_of, parse_id, id_of, join_from, joined};
use crate::store::{
    TodoList, MAX_ID, with_added, set_deleted, set_completed, set_title,
};
use crate::todo::TodoView;

verus! {

/// One command of the interpreter, as read from a line.
#[derive(Debug)]
pub enum Command {
    Add(String),
    Remove(i16),
    Done(i16),
    Undone(i16),
    Recover(i16),
    Edit(i16, String),
    List,
    Trash,
    Help,
    Close,
    /// A line that names no command.
    Invalid,
    /// A command whose id is not an integer: it is dropped without a word.
    Ignored,
}

/// The mathematical value of a command.
pub enum CommandView {
    Add(Seq<char>),
    Remove(i16),
    Done(i16),
    Undone(i16),
    Recover(i16),
    Edit(i16, Seq<char>),
    List,
    Trash,
    Help,
    Close,
    Invalid,
    Ignored,
}

impl View for Command {
    type V = CommandView;

    open spec fn view(&self) -> CommandView {
        match self {
            Command::Add(t) => CommandView::Add(t@),
            Command::Remove(id) => CommandView::Remove(*id),
            Command::Done(id) => CommandView::Done(*id),
            Command::Undone(id) => CommandView::Undone(*id),
            Command::Recover(id) => CommandView::Recover(*id),
            Command::Edit(id, t) => CommandView::Edit(*id, t@),
            Command::List => CommandView::List,
            Command::Trash => CommandView::Trash,
            Command::Help => CommandView::Help,
            Command::Close => CommandView::Close,
            Command::Invalid => CommandView::Invalid,
            Command::Ignored => CommandView::Ignored,
        }
    }
}

/// What the interpreter shows in answer to a command, before any re-render.
#[derive(PartialEq, Eq, Structural, Clone, Copy, Debug)]
pub enum Screen {
    /// The tasks not deleted.
    Active,
    /// The deleted tasks.
    Trash,
    /// The command reference.
    Help,
    /// The invalid-command message, which echoes the line.
    Invalid,
    /// Nothing: the process ends.
    Quit,
    /// Nothing.
    Nothing,
}

/// The interpreter's answer to one line.
#[derive(PartialEq, Eq, Structural, Clone, Copy, Debug)]
pub struct Reply {
    /// What to show first.
    pub screen: Screen,
    /// The list is to be written out in full.
    pub persist: bool,
    /// The active view is to be shown afterwards.
    pub rerender: bool,
}

/// The command that a line of words `ws` names.
pub open spec fn command_of(ws: Seq<Seq<char>>) -> CommandView {
    if ws.len() == 0 {
        CommandView::Invalid
    } else if ws.len() == 1 {
        if ws[0] == "list"@ {
            CommandView::List
        } else if ws[0] == "close"@ {
            CommandView::Close
        } else if ws[0] == "help"@ {
            CommandView::Help
        } else if ws[0] == "trash"@ {
            CommandView::Trash
        } else {
            CommandView::Invalid
        }
    } else if ws[0] == "add"@ {
        CommandView::Add(joined(ws.skip(1)))
    } else if ws[0] == "remove"@ {
        match id_of(ws[1]) {
            Some(id) => CommandView::Remove(id),
            None => CommandView::Ignored,
        }
    } else if ws[0] == "done"@ {
        match id_of(ws[1]) {
            Some(id) => CommandView::Done(id),
            None => CommandView::Ignored,
        }
    } else if ws[0] == "undone"@ {
        match id_of(ws[1]) {
            Some(id) => CommandView::Undone(id),
            None => CommandView::Ignored,
        }
    } else if ws[0] == "recover"@ {
        match id_of(ws[1]) {
            Some(id) => CommandView::Recover(id),
            None => CommandView::Ignored,
        }
    } else if ws[0] == "edit"@ {
        match id_of(ws[1]) {
            Some(id) => CommandView::Edit(id, joined(ws.skip(2))),
            None => CommandView::Ignored,
        }
    } else {
        CommandView::Invalid
    }
}

/// The list after command `c`.
pub open spec fn apply(s: Seq<TodoView>, c: CommandView) -> Seq<TodoView> {
    match c {
        CommandView::Add(t) => with_added(s, t),
        CommandView::Remove(id) => set_deleted(s, id as int, true),
        CommandView::Recover(id) => set_deleted(s, id as int, false),
        CommandView::Done(id) => set_completed(s, id as int, true),
        CommandView::Undone(id) => set_completed(s, id as int, false),
        CommandView::Edit(id, t) => set_title(s, id as int, t),
        _ => s,
    }
}

/// What command `c` shows.
pub open spec fn screen_of(c: CommandView) -> Screen {
    match c {
        CommandView::List => Screen::Active,
        CommandView::Trash => Screen::Trash,
        CommandView::Help => Screen::Help,
        CommandView::Close => Screen::Quit,
        CommandView::Invalid => Screen::Invalid,
        _ => Screen::Nothing,
    }
}

/// Command `c` changes the list, or may: it is followed by a full write.
pub open spec fn changes_store(c: CommandView) -> bool {
    match c {
        CommandView::Add(_) | CommandView::Remove(_) | CommandView::Recover(_)
        | CommandView::Done(_) | CommandView::Undone(_) | CommandView::Edit(_, _) => true,
        _ => false,
    }
}

/// The answer to the line of words `ws`: every line but one whose first word
/// is `list` is followed by the active view.
pub open spec fn reply_of(ws: Seq<Seq<char>>) -> Reply {
    Reply {
        screen: screen_of(command_of(ws)),
        persist: changes_store(command_of(ws)),
        rerender: !(ws.len() > 0 && ws[0] == "list"@),
    }
}

/// Command `c` cannot run on list `s`: it adds a task and no id is left.
pub open spec fn refused(s: Seq<TodoView>, c: CommandView) -> bool {
    c is Add && s.len() >= MAX_ID
}

/// `w` is the word `k`.
fn is_word(w: &String, k: &str) -> (r: bool)
    ensures
        r == (w@ == k@),
{
    let key = k.to_string();
    w.eq(&key)
}

/// The command that the words `words` name.
pub fn parse_words(words: &Vec<String>) -> (r: Command)
    ensures
        r@ == command_of(words@.map_values(|w: String| w@)),
{
    let ghost ws = words@.map_values(|w: String| w@);
    let n = words.len();
    if n == 0 {
        return Command::Invalid;
    }
    assert(ws[0] == words@[0]@);
    if n == 1 {
        if is_word(&words[0], "list") {
            Command::List
        } else if is_word(&words[0], "close") {
            Command::Close
        } else if is_word(&words[0], "help") {
            Command::Help
        } else if is_word(&words[0], "trash") {
            Command::Trash
        } else {
            Command::Invalid
        }
    } else {
        assert(ws[1] == words@[1]@);
        if is_word(&words[0], "add") {
            Command::Add(join_from(words, 1))
        } else if is_word(&words[0], "remove") {
            match parse_id(words[1].as_str()) {
                Some(id) => Command::Remove(id),
                None => Command::Ignored,
            }
        } else if is_word(&words[0], "done") {
            match parse_id(words[1].as_str()) {
                Some(id) => Command::Done(id),
                None => Command::Ignored,
            }
        } else if is_word(&words[0], "undone") {
            match parse_id(words[1].as_str()) {
                Some(id) => Command::Undone(id),
                None => Command::Ignored,
            }
        } else if is_word(&words[0], "recover") {
            match parse_id(words[1].as_str()) {
                Some(id) => Command::Recover(id),
                None => Command::Ignored,
            }
        } else if is_word(&words[0], "edit") {
            match parse_id(words[1].as_str()) {
                Some(id) => Command::Edit(id, join_from(words, 2)),
                None => Command::Ignored,
            }
        } else {
            Command::Invalid
        }
    }
}

impl TodoList {
    /// Runs command `cmd` on the list and says what to show.
    pub fn execute(&mut self, cmd: &Command) -> (r: Screen)
        requires
            !refused(old(self)@, cmd@),
        ensures
            final(self)@ == apply(old(self)@, cmd@),
            r == screen_of(cmd@),
    {
        match cmd {
            Command::Add(title) => {
                self.add_todo(title.as_str());
                Screen::Nothing
            },
            Command::Remove(id) => {
                self.remove_todo(*id);
                Screen::Nothing
            },
            Command::Done(id) => {
                self.mark_done(*id);
                Screen::Nothing
            },
            Command::Undone(id) => {
                self.mark_undone(*id);
                Screen::Nothing
            },
            Command::Recover(id) => {
                self.recover_todo(*id);
                Screen::Nothing
            },
            Command::Edit(id, title) => {
                self.edit_todo(*id, title.as_str());
                Screen::Nothing
            },
            Command::List => Screen::Active,
            Command::Trash => Screen::Trash,
            Command::Help => Screen::Help,
            Command::Close => Screen::Quit,
            Command::Invalid => Screen::Invalid,
            Command::Ignored => Screen::Nothing,
        }
    }

    /// Interprets one line given as its words: runs the command they name and
    /// answers with what to show and whether to write the list out. Returns
    /// `None`, and leaves the list as it was, only for an `add` when no id is
    /// left.
    pub fn interpret_words(&mut self, words: &Vec<String>) -> (r: Option<Reply>)
        ensures
            ({
                let ws = words@.map_values(|w: String| w@);
                match r {
                    None => refused(old(self)@, command_of(ws)) && final(self)@ == old(self)@,
                    Some(reply) => !refused(old(self)@, command_of(ws)) && reply == reply_of(ws)
                        && final(self)@ == apply(old(self)@, command_of(ws)),
                }
            }),
    {
        let ghost ws = words@.map_values(|w: String| w@);
        let cmd = parse_words(words);
        let persist = match &cmd {
            Command::Add(_) => true,
            Command::Remove(_) => true,
            Command::Recover(_) => true,
            Command::Done(_) => true,
            Command::Undone(_) => true,
            Command::Edit(_, _) => true,
            _ => false,
        };
        if let Command::Add(_) = &cmd {
            if self.len() >= MAX_ID as usize {
                return None;
            }
        }
        let screen = self.execute(&cmd);
        let mut rerender = true;
        if words.len() > 0 {
            assert(ws[0] == words@[0]@);
            if is_word(&words[0], "list") {
                rerender = false;
            }
        }
        Some(Reply { screen, persist, rerender })
    }

    /// Interprets one line of input; see `interpret_words`.
    pub fn interpret(&mut self, line: &str) -> (r: Option<Reply>)
        ensures
            match r {
                None => refused(old(self)@, command_of(words_of(line@))) && final(self)@
                    == old(self)@,
                Some(reply) => !refused(old(self)@, command_of(words_of(line@))) && reply
                    == reply_of(words_of(line@)) && final(self)@ == apply(
                    old(self)@,
                    command_of(words_of(line@)),
                ),
            },
    {
        let words = split_words(line);
        self.interpret_words(&words)
    }
}

} // verus!
