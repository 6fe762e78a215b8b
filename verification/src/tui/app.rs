use super::key::Key;
use crate::tasks::storage::StorageError;
use crate::tasks::task::{EditField, Task, TaskView};
use crate::tasks::task_list::{task_views, Navigation, TaskList, TaskListView};
use rusqlite::Connection;
use vstd::prelude::*;

verus! {

/// What is on screen.
#[derive(Debug, Clone, Copy, PartialEq, Eq, Structural)]
pub enum Screen {
    /// The task list, with a selection that the user moves.
    Browsing,
    /// One task is being edited; keystrokes go to the given field.
    Editing(EditField),
    /// The user has asked to quit and has not answered yet.
    ConfirmingExit,
}

/// What a key asks of storage before it can take effect.
#[derive(Debug, Clone, Copy, PartialEq, Eq, Structural)]
pub enum Request {
    /// Nothing: the key acts on the state alone.
    Nothing,
    /// A new task is to be stored.
    Create,
    /// The targeted task is to be deleted from storage.
    Delete,
    /// The texts of the targeted task are to be written back.
    Commit,
}

/// The mathematical value of an [`App`]: the task store, the screen and the
/// exit flag.
pub struct AppView {
    pub tasks: TaskListView,
    pub screen: Screen,
    pub exit: bool,
}

impl AppView {
    /// The selection is valid, and while a task is edited there is a task.
    pub open spec fn wf(self) -> bool {
        &&& self.tasks.wf()
        &&& self.screen is Editing ==> self.tasks.items.len() > 0
    }

    /// The index that editing and deleting act on: the selected task, and the
    /// first task where none is selected.
    pub open spec fn target(self) -> int {
        match self.tasks.selected {
            Some(i) => i,
            None => 0,
        }
    }

    /// What `key` asks of storage in this state.
    pub open spec fn request(self, key: Key) -> Request {
        match self.screen {
            Screen::Browsing => if key == Key::Char('o') {
                Request::Create
            } else if key == Key::Char('d') && self.tasks.items.len() > 0 {
                Request::Delete
            } else {
                Request::Nothing
            },
            Screen::Editing(_) => if key == Key::Enter {
                Request::Commit
            } else {
                Request::Nothing
            },
            Screen::ConfirmingExit => Request::Nothing,
        }
    }

    /// The state with the selection moved by one step.
    pub open spec fn navigate(self, step: Navigation) -> AppView {
        AppView { tasks: self.tasks.navigate(step), ..self }
    }

    /// The state after a request to edit: the title of the targeted task is
    /// edited, unless there is no task.
    pub open spec fn edit(self) -> AppView {
        if self.tasks.items.len() > 0 {
            AppView { screen: Screen::Editing(EditField::Title), ..self }
        } else {
            self
        }
    }

    /// What a key does while the list is browsed, storage aside.
    pub open spec fn press_browsing(self, key: Key) -> AppView {
        match key {
            Key::Left => self.navigate(Navigation::Previous),
            Key::Right => self.navigate(Navigation::Next),
            Key::Char(c) => if c == 'q' {
                AppView { screen: Screen::ConfirmingExit, ..self }
            } else if c == 'h' {
                self.navigate(Navigation::Clear)
            } else if c == 'j' {
                self.navigate(Navigation::Next)
            } else if c == 'k' {
                self.navigate(Navigation::Previous)
            } else if c == 'g' {
                self.navigate(Navigation::First)
            } else if c == 'G' {
                self.navigate(Navigation::Last)
            } else if c == 'i' {
                self.edit()
            } else {
                self
            },
            _ => self,
        }
    }

    /// What a key does while the user is asked whether to quit.
    pub open spec fn press_confirming(self, key: Key) -> AppView {
        if key == Key::Char('y') {
            AppView { exit: true, ..self }
        } else if key == Key::Char('n') || key == Key::Char('q') {
            AppView { screen: Screen::Browsing, ..self }
        } else {
            self
        }
    }

    /// What a key does while `field` of the targeted task is edited, storage
    /// aside.
    pub open spec fn press_editing(self, field: EditField, key: Key) -> AppView {
        match key {
            Key::Tab => AppView { screen: Screen::Editing(field.toggled()), ..self },
            Key::Char(c) => AppView {
                tasks: self.tasks.update(
                    self.target(),
                    self.tasks.items[self.target()].push_char(field, c),
                ),
                ..self
            },
            Key::Backspace => AppView {
                tasks: self.tasks.update(
                    self.target(),
                    self.tasks.items[self.target()].pop_char(field),
                ),
                ..self
            },
            _ => self,
        }
    }

    /// The state after `key`, for a key that asks nothing of storage. A key
    /// that the screen gives no meaning changes nothing.
    pub open spec fn press(self, key: Key) -> AppView {
        match self.screen {
            Screen::Browsing => self.press_browsing(key),
            Screen::Editing(field) => self.press_editing(field, key),
            Screen::ConfirmingExit => self.press_confirming(key),
        }
    }

    /// The state after a sequence of keys that ask nothing of storage.
    pub open spec fn press_all(self, keys: Seq<Key>) -> AppView
        decreases keys.len(),
    {
        if keys.len() == 0 {
            self
        } else {
            self.press_all(keys.drop_last()).press(keys.last())
        }
    }

    /// The state after `task` has been stored: it is the last task, it is
    /// selected, and its title is being edited.
    pub open spec fn created(self, task: TaskView) -> AppView {
        AppView {
            tasks: self.tasks.push(task).select_last(),
            screen: Screen::Editing(EditField::Title),
            ..self
        }
    }

    /// Whether `after` is what the creation of a task makes of this state,
    /// given what was returned: on success a blank task with an id of its own
    /// has become the last task, is selected, and its title is edited; on a
    /// failure nothing has changed.
    pub open spec fn stored_new_task(self, r: Result<(), StorageError>, after: AppView) -> bool {
        match r {
            Ok(_) => {
                let task = after.tasks.items.last();
                &&& after.tasks.items.len() == self.tasks.items.len() + 1
                &&& task.id is Some
                &&& task.with_id(None).is_blank()
                &&& after == self.created(task)
            },
            Err(_) => after == self,
        }
    }

    /// The state after the targeted task has been deleted from storage: it is
    /// gone from the store too. Where it was being edited, its edit is over
    /// and the list is browsed.
    pub open spec fn deleted(self) -> AppView {
        AppView {
            tasks: self.tasks.remove(self.target()),
            screen: match self.screen {
                Screen::Editing(_) => Screen::Browsing,
                _ => self.screen,
            },
            ..self
        }
    }

    /// The state after the edited texts have been written back: the list is
    /// browsed again.
    pub open spec fn committed(self) -> AppView {
        AppView { screen: Screen::Browsing, ..self }
    }
}

/// The application: the task store, the storage connection that mirrors it,
/// the screen and the exit flag.
pub struct App {
    tasks: TaskList,
    conn: Connection,
    screen: Screen,
    exit: bool,
}

impl View for App {
    type V = AppView;

    closed spec fn view(&self) -> AppView {
        AppView { tasks: self.tasks@, screen: self.screen, exit: self.exit }
    }
}

impl App {
    /// Opens the application on `conn`: makes sure that the tables exist and
    /// loads the tasks. Where storage delivers, the application stands on
    /// `conn` as [`App::with_tasks`] builds it on the tasks loaded; where
    /// not, the failure is the one that SQLite reported.
    pub fn new(conn: Connection) -> (r: Result<App, StorageError>)
        ensures
            match r {
                Ok(app) => {
                    &&& app@.wf()
                    &&& app@.screen == Screen::Browsing
                    &&& app@.tasks.selected is None
                    &&& !app@.exit
                    &&& app.storage() == conn
                },
                Err(e) => e is Database,
            },
    {
        match Task::ensure_tables(&conn) {
            Ok(()) => {},
            Err(e) => {
                return Err(e);
            },
        }
        match Task::get_tasks(&conn) {
            Ok(tasks) => Ok(App::with_tasks(conn, tasks)),
            Err(e) => Err(e),
        }
    }

    /// The task store.
    pub fn tasks(&self) -> (tasks: &TaskList)
        ensures
            tasks@ == self@.tasks,
    {
        &self.tasks
    }

    /// The storage connection: the one that the application was opened on.
    pub fn connection(&self) -> (conn: &Connection)
        ensures
            *conn == self.storage(),
    {
        &self.conn
    }

    /// What is on screen.
    pub fn screen(&self) -> (screen: Screen)
        ensures
            screen == self@.screen,
    {
        self.screen
    }

    /// Whether the user has confirmed that the application is to end.
    pub fn should_exit(&self) -> (exit: bool)
        ensures
            exit == self@.exit,
    {
        self.exit
    }

    /// The index that editing and deleting act on: the selected task, and the
    /// first task where none is selected.
    pub fn target(&self) -> (index: usize)
        ensures
            index == self@.target(),
    {
        match self.tasks.selected() {
            Some(i) => i,
            None => 0,
        }
    }

    /// What `key` asks of storage in this state.
    pub fn request(&self, key: Key) -> (request: Request)
        ensures
            request == self@.request(key),
    {
        match self.screen {
            Screen::Browsing => match key {
                Key::Char(c) => if c == 'o' {
                    Request::Create
                } else if c == 'd' && !self.tasks.is_empty() {
                    Request::Delete
                } else {
                    Request::Nothing
                },
                _ => Request::Nothing,
            },
            Screen::Editing(_) => match key {
                Key::Enter => Request::Commit,
                _ => Request::Nothing,
            },
            Screen::ConfirmingExit => Request::Nothing,
        }
    }

    /// Sets the exit flag.
    fn exit(&mut self)
        ensures
            final(self)@ == (AppView { exit: true, ..old(self)@ }),
            final(self).storage() == old(self).storage(),
    {
        self.exit = true;
    }

    /// Starts the edit of the title of the targeted task, if there is a
    /// task.
    fn edit_task(&mut self)
        ensures
            final(self)@ == old(self)@.edit(),
            final(self).storage() == old(self).storage(),
    {
        if self.tasks.len() > 0 {
            self.screen = Screen::Editing(EditField::Title);
        }
    }

    /// Applies a key that asks nothing of storage. A key that asks for
    /// storage changes nothing here.
    pub fn press(&mut self, key: Key)
        requires
            old(self)@.wf(),
        ensures
            final(self)@ == old(self)@.press(key),
            final(self)@.wf(),
            final(self).storage() == old(self).storage(),
    {
        match self.screen {
            Screen::Browsing => match key {
                Key::Left => self.tasks.navigate(Navigation::Previous),
                Key::Right => self.tasks.navigate(Navigation::Next),
                Key::Char(c) => if c == 'q' {
                    self.screen = Screen::ConfirmingExit;
                } else if c == 'h' {
                    self.tasks.navigate(Navigation::Clear);
                } else if c == 'j' {
                    self.tasks.navigate(Navigation::Next);
                } else if c == 'k' {
                    self.tasks.navigate(Navigation::Previous);
                } else if c == 'g' {
                    self.tasks.navigate(Navigation::First);
                } else if c == 'G' {
                    self.tasks.navigate(Navigation::Last);
                } else if c == 'i' {
                    self.edit_task();
                },
                _ => {},
            },
            Screen::ConfirmingExit => match key {
                Key::Char(c) => if c == 'y' {
                    self.exit();
                } else if c == 'n' || c == 'q' {
                    self.screen = Screen::Browsing;
                },
                _ => {},
            },
            Screen::Editing(field) => match key {
                Key::Tab => {
                    self.screen = Screen::Editing(field.toggle());
                },
                Key::Char(c) => {
                    let index = self.target();
                    self.tasks.push_char(index, field, c);
                },
                Key::Backspace => {
                    let index = self.target();
                    self.tasks.pop_char(index, field);
                },
                _ => {},
            },
        }
    }
}

impl App {
    /// Takes in the answer of storage to the creation of `task`. Stored
    /// under `id`, the task enters the store with that id, is selected, and
    /// its title is edited. On a failure nothing changes and the failure is
    /// handed on.
    pub fn finish_insert(&mut self, task: Task, stored: Result<i64, StorageError>) -> (r: Result<
        (),
        StorageError,
    >)
        requires
            old(self)@.wf(),
        ensures
            final(self)@.wf(),
            final(self).storage() == old(self).storage(),
            match stored {
                Ok(id) => r is Ok && final(self)@ == old(self)@.created(task@.with_id(Some(id))),
                Err(e) => r == Err::<(), StorageError>(e) && final(self)@ == old(self)@,
            },
    {
        match stored {
            Ok(id) => {
                let mut task = task;
                task.id = Some(id);
                self.tasks.push(task);
                self.tasks.select_last();
                self.screen = Screen::Editing(EditField::Title);
                Ok(())
            },
            Err(e) => Err(e),
        }
    }

    /// Takes in the answer of storage to the deletion of the targeted task.
    /// Deleted there, the task leaves the store too, and an edit of it is
    /// over. On a failure nothing changes and the failure is handed on.
    pub fn finish_delete(&mut self, deleted: Result<(), StorageError>) -> (r: Result<
        (),
        StorageError,
    >)
        requires
            old(self)@.wf(),
            old(self)@.tasks.items.len() > 0,
        ensures
            final(self)@.wf(),
            final(self).storage() == old(self).storage(),
            match deleted {
                Ok(_) => r is Ok && final(self)@ == old(self)@.deleted(),
                Err(e) => r == Err::<(), StorageError>(e) && final(self)@ == old(self)@,
            },
    {
        match deleted {
            Ok(_) => {
                let index = self.target();
                self.tasks.remove(index);
                match self.screen {
                    Screen::Editing(_) => {
                        self.screen = Screen::Browsing;
                    },
                    _ => {},
                }
                Ok(())
            },
            Err(e) => Err(e),
        }
    }

    /// Takes in the answer of storage to writing back the edited texts.
    /// Written, the edit is over and the list is browsed again. On a failure
    /// the edit goes on and the failure is handed on.
    pub fn finish_commit(&mut self, saved: Result<(), StorageError>) -> (r: Result<
        (),
        StorageError,
    >)
        requires
            old(self)@.wf(),
        ensures
            final(self)@.wf(),
            final(self).storage() == old(self).storage(),
            match saved {
                Ok(_) => r is Ok && final(self)@ == old(self)@.committed(),
                Err(e) => r == Err::<(), StorageError>(e) && final(self)@ == old(self)@,
            },
    {
        match saved {
            Ok(_) => {
                self.screen = Screen::Browsing;
                Ok(())
            },
            Err(e) => Err(e),
        }
    }

    /// Builds a blank task, stores it, and lets it enter the store once it
    /// is stored.
    fn insert_task(&mut self) -> (r: Result<(), StorageError>)
        requires
            old(self)@.wf(),
        ensures
            final(self)@.wf(),
            final(self).storage() == old(self).storage(),
            old(self)@.stored_new_task(r, final(self)@),
            r matches Err(e) ==> e is Database,
    {
        let task = Task::default();
        let stored = Task::add_task(&self.conn, &task);
        self.finish_insert(task, stored)
    }

    /// Deletes the targeted task from storage, and from the store once it
    /// is deleted there.
    fn delete_task(&mut self) -> (r: Result<(), StorageError>)
        requires
            old(self)@.wf(),
            old(self)@.tasks.items.len() > 0,
        ensures
            final(self)@.wf(),
            final(self).storage() == old(self).storage(),
            r is Ok ==> final(self)@ == old(self)@.deleted(),
            r is Err ==> final(self)@ == old(self)@,
            r matches Err(e) ==> e is Database,
    {
        let index = self.target();
        let deleted = Task::delete_task(&self.conn, self.tasks.get(index));
        self.finish_delete(deleted)
    }

    /// Writes the title and the description of the targeted task to storage.
    /// Whether that succeeds is for storage to say.
    fn save_task(&self) -> (r: Result<(), StorageError>)
        requires
            self@.wf(),
            self@.tasks.items.len() > 0,
        ensures
            r matches Err(e) ==> e is Database,
    {
        let index = self.target();
        Task::update_task(&self.conn, self.tasks.get(index))
    }

    /// Handles one key press: asks of storage what the key asks for, and
    /// moves to the next state. Where storage fails, the failure is returned
    /// and the state is as it was.
    pub fn handle_key_event(&mut self, key: Key) -> (r: Result<(), StorageError>)
        requires
            old(self)@.wf(),
        ensures
            final(self)@.wf(),
            final(self).storage() == old(self).storage(),
            r matches Err(e) ==> e is Database,
            match old(self)@.request(key) {
                Request::Nothing => r is Ok && final(self)@ == old(self)@.press(key),
                Request::Create => old(self)@.stored_new_task(r, final(self)@),
                Request::Delete => match r {
                    Ok(_) => final(self)@ == old(self)@.deleted(),
                    Err(_) => final(self)@ == old(self)@,
                },
                Request::Commit => match r {
                    Ok(_) => final(self)@ == old(self)@.committed(),
                    Err(_) => final(self)@ == old(self)@,
                },
            },
    {
        match self.request(key) {
            Request::Nothing => {
                self.press(key);
                Ok(())
            },
            Request::Create => self.insert_task(),
            Request::Delete => self.delete_task(),
            Request::Commit => {
                let saved = self.save_task();
                self.finish_commit(saved)
            },
        }
    }
}

impl App {
    /// The storage connection that the application stands on. No key and no
    /// answer of storage puts another in its place.
    pub closed spec fn storage(&self) -> Connection {
        self.conn
    }

    /// The application on `conn` with `tasks` in its store, in their order:
    /// the list is browsed, nothing is selected, and the exit flag is unset.
    pub fn with_tasks(conn: Connection, tasks: Vec<Task>) -> (app: App)
        ensures
            app@.wf(),
            app@.tasks.items == task_views(tasks@),
            app@.tasks.selected is None,
            app@.screen == Screen::Browsing,
            !app@.exit,
            app.storage() == conn,
    {
        App { tasks: TaskList::new(tasks), conn, screen: Screen::Browsing, exit: false }
    }
}

/// No key breaks the state: from a valid state, every sequence of keys that
/// ask nothing of storage ends in a valid state, that is, the selection is
/// unset or the index of a task, and an edit is bound to a task.
pub proof fn lemma_keys_keep_state_valid(state: AppView, keys: Seq<Key>)
    requires
        state.wf(),
    ensures
        state.press_all(keys).wf(),
    decreases keys.len(),
{
    if keys.len() > 0 {
        lemma_keys_keep_state_valid(state, keys.drop_last());
    }
}

/// Keys are scoped to the screen. While the list is browsed no key changes a
/// task or the exit flag; while a task is edited no key moves the selection,
/// changes the number of tasks, leaves the edit or sets the exit flag; while
/// the user is asked whether to quit no key touches the store.
pub proof fn lemma_keys_are_scoped_to_the_screen(state: AppView, key: Key)
    requires
        state.wf(),
    ensures
        state.screen is Browsing ==> {
            &&& state.press(key).tasks.items == state.tasks.items
            &&& state.press(key).exit == state.exit
        },
        state.screen is Editing ==> {
            &&& state.press(key).tasks.selected == state.tasks.selected
            &&& state.press(key).tasks.items.len() == state.tasks.items.len()
            &&& state.press(key).screen is Editing
            &&& state.press(key).exit == state.exit
        },
        state.screen is ConfirmingExit ==> state.press(key).tasks == state.tasks,
{
}

/// A key that the screen gives a meaning only through storage changes
/// nothing by itself.
pub proof fn lemma_storage_keys_wait_for_storage(state: AppView, key: Key)
    ensures
        !(state.request(key) is Nothing) ==> state.press(key) == state,
{
}

/// Creating a task adds exactly that task, at the end, selects it and starts
/// the edit of its title; the tasks that were there stay as they are.
pub proof fn lemma_create_appends_and_edits(state: AppView, task: TaskView)
    requires
        state.wf(),
    ensures
        state.created(task).wf(),
        state.created(task).tasks.items == state.tasks.items.push(task),
        state.created(task).tasks.selected == Some(state.tasks.items.len() as int),
        state.created(task).screen == Screen::Editing(EditField::Title),
        state.created(task).target() == state.tasks.items.len(),
{
}

/// Deleting removes exactly one task, the targeted one, on whatever screen:
/// the tasks before it stay where they are, the tasks behind it move up by
/// one. The state stays valid, and nothing is selected once the last task is
/// gone.
pub proof fn lemma_delete_removes_exactly_the_target(state: AppView)
    requires
        state.wf(),
        state.tasks.items.len() > 0,
    ensures
        state.deleted().wf(),
        state.deleted().tasks.items == state.tasks.items.remove(state.target()),
        state.deleted().tasks.items.len() == state.tasks.items.len() - 1,
        forall|i: int|
            0 <= i < state.target() ==> state.deleted().tasks.items[i] == state.tasks.items[i],
        forall|i: int|
            state.target() <= i < state.tasks.items.len() - 1 ==> state.deleted().tasks.items[i]
                == state.tasks.items[i + 1],
        state.tasks.items.len() == 1 ==> state.deleted().tasks.selected is None,
        state.tasks.items.len() > 1 && state.tasks.selected is Some
            ==> state.deleted().tasks.selected is Some,
{
}

/// Quitting takes two answers: the quit key only asks, `n` takes the
/// question back without setting the exit flag, and `y` sets it.
pub proof fn lemma_exit_is_confirmed(state: AppView)
    requires
        state.screen is Browsing,
    ensures
        state.press(Key::Char('q')).screen is ConfirmingExit,
        state.press(Key::Char('q')).exit == state.exit,
        state.press(Key::Char('q')).press(Key::Char('n')).screen is Browsing,
        state.press(Key::Char('q')).press(Key::Char('n')) == state,
        state.press(Key::Char('q')).press(Key::Char('y')).exit,
{
}

} // verus!
