//! One session at the list: browsing it, or editing the text of the selected
//! task, and the rules by which a key changes it.

use vstd::prelude::*;
use crate::clock::{is_timestamp, timestamp_now};
use crate::codec::{
    all_well_formed, are_lines_of, has_status_prefix, is_first_malformed, line_views, load_all,
    save_all, saved_lines, LoadError, LoadOutcome, MalformedLineError, SavePolicy,
};
use crate::key::Key;
use crate::list::{TaskList, TaskListView};

verus! {

/// The code of the key that moves the selection up: `j`.
pub const MOVE_UP_KEY: i32 = 106;

/// The code of the key that moves the selection down: `k`.
pub const MOVE_DOWN_KEY: i32 = 107;

/// The code of the key that flips the status of the selected task: `d`.
pub const TOGGLE_KEY: i32 = 100;

/// The code of the key that removes the selected task: `a`.
pub const DELETE_KEY: i32 = 97;

/// The code of the key that starts a new task: `e`.
pub const NEW_KEY: i32 = 101;

/// The code of the key that ends the session: `q`.
pub const QUIT_KEY: i32 = 113;

/// The code of the key that ends an edit: enter, which arrives as a line feed.
pub const COMMIT_KEY: i32 = 10;

/// What a key asks for.
#[derive(Clone, Copy, Debug, PartialEq, Eq, Structural)]
pub enum Command {
    /// Select the task above.
    MoveUp,
    /// Select the task below.
    MoveDown,
    /// Flip the status of the selected task.
    ToggleStatus,
    /// Remove the selected task.
    Delete,
    /// Put a new task at the front and edit its text.
    StartNew,
    /// End the session.
    Quit,
    /// Hand the key to the editor of the selected task's text.
    Edit(Key),
    /// End the edit and keep its text.
    Commit,
    /// Nothing: the key has no meaning while the list is browsed.
    Ignore,
}

impl Command {
    /// The commands that a key can have in the given mode: an edit is ended,
    /// or handed a key, only while it lasts, and the list is browsed, a task
    /// begun and the session left only while no text is edited.
    pub open spec fn fits(self, editing: bool) -> bool {
        match self {
            Command::Commit | Command::Edit(_) => editing,
            Command::Ignore => true,
            _ => !editing,
        }
    }
}

/// The command of a key. While a text is edited, enter ends the edit and
/// every other key goes to the editor, which leaves alone what it does not
/// understand. While the list is browsed, six letters have a command each and
/// any other key is ignored.
pub open spec fn command_of(editing: bool, key: Key) -> Command {
    if editing {
        if key == Key::Code(COMMIT_KEY) {
            Command::Commit
        } else {
            Command::Edit(key)
        }
    } else {
        match key {
            Key::Code(code) => if code == MOVE_UP_KEY {
                Command::MoveUp
            } else if code == MOVE_DOWN_KEY {
                Command::MoveDown
            } else if code == TOGGLE_KEY {
                Command::ToggleStatus
            } else if code == DELETE_KEY {
                Command::Delete
            } else if code == NEW_KEY {
                Command::StartNew
            } else if code == QUIT_KEY {
                Command::Quit
            } else {
                Command::Ignore
            },
            _ => Command::Ignore,
        }
    }
}

/// Finds the command of a key in the given mode.
pub fn dispatch(editing: bool, key: Key) -> (command: Command)
    ensures
        command == command_of(editing, key),
        command.fits(editing),
{
    if editing {
        match key {
            Key::Code(code) => if code == COMMIT_KEY {
                Command::Commit
            } else {
                Command::Edit(key)
            },
            _ => Command::Edit(key),
        }
    } else {
        match key {
            Key::Code(code) => if code == MOVE_UP_KEY {
                Command::MoveUp
            } else if code == MOVE_DOWN_KEY {
                Command::MoveDown
            } else if code == TOGGLE_KEY {
                Command::ToggleStatus
            } else if code == DELETE_KEY {
                Command::Delete
            } else if code == NEW_KEY {
                Command::StartNew
            } else if code == QUIT_KEY {
                Command::Quit
            } else {
                Command::Ignore
            },
            _ => Command::Ignore,
        }
    }
}

/// A session: the list, whether the text of its selected task is being
/// edited, where the cursor of that edit stands, and whether the user has
/// asked to leave.
#[derive(Debug)]
pub struct Session {
    list: TaskList,
    editing: bool,
    cursor_offset: usize,
    quit: bool,
}

/// What a [`Session`] holds, as a mathematical value.
#[verifier::ext_equal]
pub struct SessionView {
    pub list: TaskListView,
    pub editing: bool,
    pub cursor_offset: int,
    pub quit: bool,
}

impl View for Session {
    type V = SessionView;

    closed spec fn view(&self) -> SessionView {
        SessionView {
            list: self.list@,
            editing: self.editing,
            cursor_offset: self.cursor_offset as int,
            quit: self.quit,
        }
    }
}

impl SessionView {
    /// The list is valid, and while a text is edited there is a selected task,
    /// whose text it is, and the cursor stands in that text.
    pub open spec fn is_valid(self) -> bool {
        &&& self.list.is_valid()
        &&& self.editing ==> self.list.has_selection() && self.list.edit_state(
            self.cursor_offset,
        ).in_range()
    }

    /// A new task, created at `created_at`, enters at the front and is
    /// selected, and the edit of its text begins in front of its first
    /// character.
    pub open spec fn start_new(self, created_at: Seq<char>) -> SessionView {
        SessionView {
            list: self.list.insert_new_at_front(created_at),
            editing: true,
            cursor_offset: 0,
            ..self
        }
    }

    /// The editor handles one key on the text of the selected task.
    pub open spec fn edit(self, key: Key) -> SessionView {
        SessionView {
            list: self.list.edit(self.cursor_offset, key),
            cursor_offset: if self.list.has_selection() {
                self.list.edit_state(self.cursor_offset).press(key).cursor
            } else {
                self.cursor_offset
            },
            ..self
        }
    }

    /// What a command makes of the session. `created_at` is the time of
    /// creation of the task that `StartNew` makes; no other command looks at
    /// it.
    pub open spec fn perform(self, command: Command, created_at: Seq<char>) -> SessionView {
        match command {
            Command::MoveUp => SessionView { list: self.list.move_up(), ..self },
            Command::MoveDown => SessionView { list: self.list.move_down(), ..self },
            Command::ToggleStatus => SessionView { list: self.list.toggle_status(), ..self },
            Command::Delete => SessionView { list: self.list.delete(), ..self },
            Command::StartNew => self.start_new(created_at),
            Command::Quit => SessionView { quit: true, ..self },
            Command::Edit(key) => self.edit(key),
            Command::Commit => SessionView { editing: false, ..self },
            Command::Ignore => self,
        }
    }

    /// What a key makes of the session: what its command in the present mode
    /// does.
    pub open spec fn step(self, key: Key, created_at: Seq<char>) -> SessionView {
        self.perform(command_of(self.editing, key), created_at)
    }
}

impl Session {
    /// A session that browses the given list.
    pub fn new(list: TaskList) -> (session: Session)
        ensures
            session@ == (SessionView { list: list@, editing: false, cursor_offset: 0, quit: false }),
            list@.is_valid() ==> session@.is_valid(),
    {
        Session { list, editing: false, cursor_offset: 0, quit: false }
    }

    /// Begins a session on what was found on disk: the lines of the file, or
    /// `None` where there is no file yet. The session browses the tasks of the
    /// file, in its order, or an empty list where there is no file. A file with
    /// a line that cannot be read begins no session: the error names the first
    /// such line.
    pub fn load(file: Option<&Vec<String>>) -> (begun: Result<(Session, LoadOutcome), LoadError>)
        ensures
            file is None ==> (begun matches Ok((session, outcome)) && session@.list.tasks.len() == 0
                && outcome == LoadOutcome::NotFound),
            file matches Some(lines) ==> (begun is Ok <==> all_well_formed(line_views(lines@))),
            file matches Some(lines) ==> match begun {
                Ok((session, outcome)) => outcome == LoadOutcome::Loaded && are_lines_of(
                    line_views(lines@),
                    session@.list.tasks,
                ),
                Err(error) => is_first_malformed(line_views(lines@), error.line - 1) && (
                error.cause == MalformedLineError::UnknownStatus <==> !has_status_prefix(
                    line_views(lines@)[error.line - 1],
                )),
            },
            begun matches Ok((session, _)) ==> session@.is_valid() && !session@.editing
                && !session@.quit && session@.list.selected == 0,
    {
        match load_all(file) {
            Ok((tasks, outcome)) => Ok((Session::new(TaskList::from_tasks(tasks)), outcome)),
            Err(error) => Err(error),
        }
    }

    /// The lines to write to disk for the list as it stands: see
    /// [`save_all`].
    pub fn save(&self, policy: SavePolicy) -> (lines: Vec<String>)
        ensures
            line_views(lines@) == saved_lines(self@.list.tasks, policy),
    {
        save_all(self.list.tasks(), policy)
    }

    /// The list.
    pub fn list(&self) -> (list: &TaskList)
        ensures
            list@ == self@.list,
    {
        &self.list
    }

    /// Whether the text of the selected task is being edited.
    pub fn is_editing(&self) -> (editing: bool)
        ensures
            editing == self@.editing,
    {
        self.editing
    }

    /// Where the cursor of the edit stands: the index of the character in
    /// front of which it is.
    pub fn cursor_offset(&self) -> (offset: usize)
        ensures
            offset == self@.cursor_offset,
    {
        self.cursor_offset
    }

    /// Whether the user has asked to leave.
    pub fn quit_requested(&self) -> (quit: bool)
        ensures
            quit == self@.quit,
    {
        self.quit
    }

    /// Ends the session and hands out its list.
    pub fn into_list(self) -> (list: TaskList)
        ensures
            list@ == self@.list,
    {
        self.list
    }

    /// Puts a new task, created at `created_at`, at the front of the list,
    /// selects it, and begins the edit of its text.
    pub fn start_new(&mut self, created_at: String)
        ensures
            final(self)@ == old(self)@.start_new(created_at@),
            final(self)@.is_valid(),
    {
        self.list.insert_new_at_front(created_at);
        self.editing = true;
        self.cursor_offset = 0;
    }

    /// Carries out a command that needs no time of creation: any but
    /// `StartNew`.
    fn perform(&mut self, command: Command)
        requires
            !(command is StartNew),
        ensures
            final(self)@ == old(self)@.perform(command, Seq::empty()),
            old(self)@.is_valid() && command.fits(old(self)@.editing) ==> final(self)@.is_valid(),
    {
        match command {
            Command::MoveUp => self.list.move_up(),
            Command::MoveDown => self.list.move_down(),
            Command::ToggleStatus => self.list.toggle_status(),
            Command::Delete => self.list.delete(),
            Command::Quit => {
                self.quit = true;
            },
            Command::Edit(key) => {
                let _ = self.list.edit_selected(&mut self.cursor_offset, key);
            },
            Command::Commit => {
                self.editing = false;
            },
            Command::StartNew | Command::Ignore => {},
        }
    }

    /// Lets one key change the session.
    ///
    /// The key's command in the present mode is carried out. A new task gets
    /// the local time of this moment as its time of creation: of that text
    /// only the shape is known beforehand.
    pub fn handle_key(&mut self, key: Key)
        ensures
            match command_of(old(self)@.editing, key) {
                Command::StartNew => {
                    let created_at = final(self)@.list.tasks[0].created_at;
                    is_timestamp(created_at) && final(self)@ == old(self)@.step(key, created_at)
                },
                _ => final(self)@ == old(self)@.step(key, Seq::empty()),
            },
            old(self)@.is_valid() ==> final(self)@.is_valid(),
    {
        match dispatch(self.editing, key) {
            Command::StartNew => {
                self.start_new(timestamp_now());
            },
            command => {
                self.perform(command);
            },
        }
    }
}

/// The command of a key fits the mode in which the key was pressed.
pub proof fn lemma_command_fits_its_mode(editing: bool, key: Key)
    ensures
        command_of(editing, key).fits(editing),
{
}

/// No key makes a valid session invalid: while a text is edited there is a
/// selected task, and the cursor stands in its text.
pub proof fn lemma_step_keeps_validity(session: SessionView, key: Key, created_at: Seq<char>)
    requires
        session.is_valid(),
    ensures
        session.step(key, created_at).is_valid(),
        session.step(key, created_at).editing ==> session.step(key, created_at).list.tasks.len()
            > 0,
{
}

/// Only the start of a new task looks at the time.
pub proof fn lemma_only_a_new_task_reads_the_time(
    session: SessionView,
    command: Command,
    one: Seq<char>,
    other: Seq<char>,
)
    requires
        !(command is StartNew),
    ensures
        session.perform(command, one) == session.perform(command, other),
{
}

/// While a text is edited, no key moves the selection, changes the number of
/// tasks or ends the session; only enter ends the edit.
pub proof fn lemma_editing_stays_on_its_task(session: SessionView, key: Key, created_at: Seq<char>)
    requires
        session.editing,
    ensures
        session.step(key, created_at).list.selected == session.list.selected,
        session.step(key, created_at).list.tasks.len() == session.list.tasks.len(),
        session.step(key, created_at).quit == session.quit,
        session.step(key, created_at).editing == (key != Key::Code(COMMIT_KEY)),
{
}

/// A new task is the first of the list and selected, its text is empty, and
/// its edit begins at offset 0, whatever the session was doing.
pub proof fn lemma_new_task_is_first_and_selected(session: SessionView, created_at: Seq<char>)
    ensures
        session.start_new(created_at).list.selected == 0,
        session.start_new(created_at).list.tasks.len() == session.list.tasks.len() + 1,
        session.start_new(created_at).list.tasks[0] == crate::task::TaskView::fresh(created_at),
        session.start_new(created_at).list.tasks.skip(1) == session.list.tasks,
        session.start_new(created_at).editing,
        session.start_new(created_at).cursor_offset == 0,
        session.start_new(created_at).is_valid(),
{
}

} // verus!
