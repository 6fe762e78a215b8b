use ctdo::tasks::storage::StorageError;
use ctdo::tasks::task::{EditField, Task};
use ctdo::tui::app::{App, Request, Screen};
use ctdo::tui::key::Key;
use rusqlite::Connection;

fn open() -> App {
    App::new(Connection::open_in_memory().unwrap()).unwrap()
}

/// An application over a database that already holds a task per title.
fn open_with(titles: &[&str]) -> App {
    let conn = Connection::open_in_memory().unwrap();
    Task::ensure_tables(&conn).unwrap();
    for title in titles {
        let mut task = Task::default();
        task.title = title.to_string();
        Task::add_task(&conn, &task).unwrap();
    }
    App::new(conn).unwrap()
}

fn press(app: &mut App, keys: &[Key]) {
    for key in keys {
        app.handle_key_event(*key).unwrap();
    }
}

fn type_text(app: &mut App, text: &str) {
    for c in text.chars() {
        app.handle_key_event(Key::Char(c)).unwrap();
    }
}

fn titles(app: &App) -> Vec<String> {
    let tasks = app.tasks();
    (0..tasks.len()).map(|i| tasks.get(i).title.clone()).collect()
}

fn stored_titles(app: &App) -> Vec<String> {
    Task::get_tasks(app.connection())
        .unwrap()
        .into_iter()
        .map(|task| task.title)
        .collect()
}

#[test]
fn app_handle_key_event() {
    let conn = Connection::open_in_memory().unwrap();
    let mut app = App::new(conn).unwrap();
    app.handle_key_event(Key::Right).unwrap();
    app.handle_key_event(Key::Right).unwrap();
    assert_eq!(app.tasks().selected(), None);

    app.handle_key_event(Key::Left).unwrap();
    assert_eq!(app.tasks().selected(), None);

    let conn = Connection::open_in_memory().unwrap();
    let mut app = App::new(conn).unwrap();
    app.handle_key_event(Key::Char('q')).unwrap();
    assert!(!app.should_exit());
    assert_eq!(app.screen(), Screen::ConfirmingExit);
}

#[test]
fn arrows_move_the_selection_through_the_tasks() {
    let mut app = open_with(&["A", "B"]);
    app.handle_key_event(Key::Right).unwrap();
    app.handle_key_event(Key::Right).unwrap();
    assert_eq!(app.tasks().selected(), Some(1));
    app.handle_key_event(Key::Left).unwrap();
    assert_eq!(app.tasks().selected(), Some(0));
}

#[test]
fn a_new_application_browses_with_nothing_selected() {
    let app = open_with(&["A", "B"]);
    assert_eq!(app.screen(), Screen::Browsing);
    assert!(!app.should_exit());
    assert_eq!(app.tasks().selected(), None);
    assert_eq!(titles(&app), vec!["A", "B"]);
}

#[test]
fn create_on_an_empty_store_starts_the_edit_of_a_stored_task() {
    let mut app = open();
    assert_eq!(app.tasks().len(), 0);
    app.handle_key_event(Key::Char('o')).unwrap();
    assert_eq!(app.tasks().len(), 1);
    assert_eq!(app.screen(), Screen::Editing(EditField::Title));
    assert_eq!(app.tasks().selected(), Some(0));
    let task = app.tasks().get(0);
    assert!(task.id.is_some());
    assert_eq!(task.title, "");
    assert_eq!(task.description, Some(String::new()));
    assert_eq!(task.completed, Some(false));
    let stored = Task::get_tasks(app.connection()).unwrap();
    assert_eq!(stored.len(), 1);
    assert_eq!(stored[0].id, task.id);
}

#[test]
fn create_selects_the_new_task_behind_the_others() {
    let mut app = open_with(&["A", "B"]);
    press(&mut app, &[Key::Char('g'), Key::Char('o')]);
    assert_eq!(app.tasks().len(), 3);
    assert_eq!(app.tasks().selected(), Some(2));
    assert_eq!(app.screen(), Screen::Editing(EditField::Title));
    type_text(&mut app, "C");
    assert_eq!(titles(&app), vec!["A", "B", "C"]);
}

#[test]
fn next_moves_from_a_to_b() {
    let mut app = open_with(&["A", "B"]);
    app.handle_key_event(Key::Char('g')).unwrap();
    assert_eq!(app.tasks().selected(), Some(0));
    app.handle_key_event(Key::Char('j')).unwrap();
    assert_eq!(app.tasks().selected(), Some(1));
    assert_eq!(app.tasks().get(1).title, "B");
}

#[test]
fn the_browsing_keys_navigate() {
    let mut app = open_with(&["A", "B", "C"]);
    app.handle_key_event(Key::Char('G')).unwrap();
    assert_eq!(app.tasks().selected(), Some(2));
    app.handle_key_event(Key::Char('j')).unwrap();
    assert_eq!(app.tasks().selected(), Some(2));
    app.handle_key_event(Key::Char('k')).unwrap();
    assert_eq!(app.tasks().selected(), Some(1));
    app.handle_key_event(Key::Left).unwrap();
    assert_eq!(app.tasks().selected(), Some(0));
    app.handle_key_event(Key::Char('k')).unwrap();
    assert_eq!(app.tasks().selected(), Some(0));
    app.handle_key_event(Key::Right).unwrap();
    assert_eq!(app.tasks().selected(), Some(1));
    app.handle_key_event(Key::Char('h')).unwrap();
    assert_eq!(app.tasks().selected(), None);
    app.handle_key_event(Key::Char('k')).unwrap();
    assert_eq!(app.tasks().selected(), Some(2));
    app.handle_key_event(Key::Char('g')).unwrap();
    assert_eq!(app.tasks().selected(), Some(0));
    assert_eq!(app.screen(), Screen::Browsing);
}

#[test]
fn typing_and_erasing_edit_the_title() {
    let mut app = open();
    app.handle_key_event(Key::Char('o')).unwrap();
    type_text(&mut app, "Buy");
    assert_eq!(app.tasks().get(0).title, "Buy");
    app.handle_key_event(Key::Char('s')).unwrap();
    assert_eq!(app.tasks().get(0).title, "Buys");
    app.handle_key_event(Key::Backspace).unwrap();
    assert_eq!(app.tasks().get(0).title, "Buy");
    assert_eq!(app.screen(), Screen::Editing(EditField::Title));
}

#[test]
fn tab_switches_the_edited_field_back_and_forth() {
    let mut app = open();
    app.handle_key_event(Key::Char('o')).unwrap();
    type_text(&mut app, "T");
    app.handle_key_event(Key::Tab).unwrap();
    assert_eq!(app.screen(), Screen::Editing(EditField::Description));
    type_text(&mut app, "note");
    app.handle_key_event(Key::Backspace).unwrap();
    app.handle_key_event(Key::Tab).unwrap();
    assert_eq!(app.screen(), Screen::Editing(EditField::Title));
    type_text(&mut app, "x");
    assert_eq!(app.tasks().get(0).title, "Tx");
    assert_eq!(app.tasks().get(0).description, Some("not".to_string()));
}

#[test]
fn erasing_an_empty_field_is_no_error() {
    let mut app = open();
    app.handle_key_event(Key::Char('o')).unwrap();
    assert!(app.handle_key_event(Key::Backspace).is_ok());
    app.handle_key_event(Key::Tab).unwrap();
    assert!(app.handle_key_event(Key::Backspace).is_ok());
    assert_eq!(app.tasks().get(0).title, "");
    assert_eq!(app.tasks().get(0).description, Some(String::new()));
}

#[test]
fn commit_writes_the_texts_to_storage_and_browses_again() {
    let mut app = open();
    app.handle_key_event(Key::Char('o')).unwrap();
    type_text(&mut app, "Buy milk");
    app.handle_key_event(Key::Tab).unwrap();
    type_text(&mut app, "two litres");
    assert_eq!(stored_titles(&app), vec![""]);
    app.handle_key_event(Key::Enter).unwrap();
    assert_eq!(app.screen(), Screen::Browsing);
    assert_eq!(app.tasks().selected(), Some(0));
    let stored = Task::get_tasks(app.connection()).unwrap();
    assert_eq!(stored.len(), 1);
    assert_eq!(stored[0].title, "Buy milk");
    assert_eq!(stored[0].description, Some("two litres".to_string()));
    assert_eq!(stored[0].id, app.tasks().get(0).id);
}

#[test]
fn quitting_asks_first() {
    let mut app = open();
    assert_eq!(app.screen(), Screen::Browsing);
    app.handle_key_event(Key::Char('q')).unwrap();
    assert_eq!(app.screen(), Screen::ConfirmingExit);
    assert!(!app.should_exit());
    app.handle_key_event(Key::Char('n')).unwrap();
    assert_eq!(app.screen(), Screen::Browsing);
    assert!(!app.should_exit());
    app.handle_key_event(Key::Char('q')).unwrap();
    app.handle_key_event(Key::Char('y')).unwrap();
    assert!(app.should_exit());
}

#[test]
fn the_quit_key_also_takes_the_question_back() {
    let mut app = open();
    press(&mut app, &[Key::Char('q'), Key::Char('q')]);
    assert_eq!(app.screen(), Screen::Browsing);
    assert!(!app.should_exit());
    press(&mut app, &[Key::Char('q'), Key::Char('x'), Key::Enter, Key::Left]);
    assert_eq!(app.screen(), Screen::ConfirmingExit);
    assert!(!app.should_exit());
}

#[test]
fn deleting_the_last_remaining_task_empties_store_and_storage() {
    let mut app = open_with(&["only"]);
    app.handle_key_event(Key::Char('g')).unwrap();
    assert_eq!(app.tasks().selected(), Some(0));
    app.handle_key_event(Key::Char('d')).unwrap();
    assert_eq!(app.tasks().len(), 0);
    assert_eq!(app.tasks().selected(), None);
    assert_eq!(app.screen(), Screen::Browsing);
    assert!(stored_titles(&app).is_empty());
}

#[test]
fn delete_removes_exactly_the_selected_task() {
    let mut app = open_with(&["A", "B", "C"]);
    press(&mut app, &[Key::Char('g'), Key::Char('j')]);
    let id = app.tasks().get(1).id.unwrap();
    app.handle_key_event(Key::Char('d')).unwrap();
    assert_eq!(titles(&app), vec!["A", "C"]);
    assert_eq!(app.tasks().selected(), Some(1));
    assert_eq!(stored_titles(&app), vec!["A", "C"]);
    assert!(matches!(
        Task::get_task(app.connection(), id),
        Err(StorageError::NotFound)
    ));
    app.handle_key_event(Key::Char('d')).unwrap();
    assert_eq!(titles(&app), vec!["A"]);
    assert_eq!(app.tasks().selected(), Some(0));
    assert_eq!(stored_titles(&app), vec!["A"]);
}

#[test]
fn without_a_selection_edit_and_delete_act_on_the_first_task() {
    let mut app = open_with(&["A", "B"]);
    assert_eq!(app.tasks().selected(), None);
    app.handle_key_event(Key::Char('i')).unwrap();
    assert_eq!(app.screen(), Screen::Editing(EditField::Title));
    type_text(&mut app, "!");
    assert_eq!(titles(&app), vec!["A!", "B"]);
    app.handle_key_event(Key::Backspace).unwrap();
    type_text(&mut app, "?");
    app.handle_key_event(Key::Enter).unwrap();
    assert_eq!(stored_titles(&app), vec!["A?", "B"]);
    assert_eq!(app.tasks().selected(), None);
    app.handle_key_event(Key::Char('d')).unwrap();
    assert_eq!(titles(&app), vec!["B"]);
    assert_eq!(stored_titles(&app), vec!["B"]);
    assert_eq!(app.tasks().selected(), None);
}

#[test]
fn an_empty_store_enables_create_only() {
    let mut app = open();
    press(
        &mut app,
        &[
            Key::Char('i'),
            Key::Char('d'),
            Key::Char('j'),
            Key::Char('G'),
            Key::Enter,
            Key::Tab,
            Key::Backspace,
            Key::Char('x'),
            Key::Other,
        ],
    );
    assert_eq!(app.screen(), Screen::Browsing);
    assert_eq!(app.tasks().len(), 0);
    assert_eq!(app.tasks().selected(), None);
    assert!(!app.should_exit());
    assert_eq!(app.request(Key::Char('d')), Request::Nothing);
    assert_eq!(app.request(Key::Char('o')), Request::Create);
}

#[test]
fn browsing_keys_are_text_while_a_task_is_edited() {
    let mut app = open_with(&["A", "B"]);
    press(&mut app, &[Key::Char('g'), Key::Char('i')]);
    type_text(&mut app, "qhjkgGoid");
    press(&mut app, &[Key::Left, Key::Right, Key::Other]);
    assert_eq!(app.screen(), Screen::Editing(EditField::Title));
    assert_eq!(app.tasks().selected(), Some(0));
    assert_eq!(titles(&app), vec!["AqhjkgGoid", "B"]);
    assert!(!app.should_exit());
}

#[test]
fn editing_keys_do_nothing_while_the_list_is_browsed() {
    let mut app = open_with(&["A", "B"]);
    app.handle_key_event(Key::Char('g')).unwrap();
    press(
        &mut app,
        &[Key::Backspace, Key::Tab, Key::Enter, Key::Char('x'), Key::Char('y'), Key::Char('n')],
    );
    assert_eq!(app.screen(), Screen::Browsing);
    assert_eq!(app.tasks().selected(), Some(0));
    assert_eq!(titles(&app), vec!["A", "B"]);
    assert_eq!(stored_titles(&app), vec!["A", "B"]);
    assert!(!app.should_exit());
}

#[test]
fn a_key_asks_of_storage_what_the_screen_says() {
    let mut app = open_with(&["A"]);
    assert_eq!(app.request(Key::Char('o')), Request::Create);
    assert_eq!(app.request(Key::Char('d')), Request::Delete);
    assert_eq!(app.request(Key::Enter), Request::Nothing);
    assert_eq!(app.request(Key::Char('q')), Request::Nothing);
    assert_eq!(app.target(), 0);
    app.handle_key_event(Key::Char('i')).unwrap();
    assert_eq!(app.request(Key::Enter), Request::Commit);
    assert_eq!(app.request(Key::Char('o')), Request::Nothing);
    assert_eq!(app.request(Key::Char('d')), Request::Nothing);
    app.handle_key_event(Key::Enter).unwrap();
    app.handle_key_event(Key::Char('q')).unwrap();
    assert_eq!(app.request(Key::Char('o')), Request::Nothing);
    assert_eq!(app.request(Key::Char('d')), Request::Nothing);
    assert_eq!(app.request(Key::Enter), Request::Nothing);
}

#[test]
fn press_leaves_the_storage_keys_alone() {
    let mut app = open_with(&["A"]);
    app.press(Key::Char('o'));
    app.press(Key::Char('d'));
    assert_eq!(titles(&app), vec!["A"]);
    assert_eq!(app.screen(), Screen::Browsing);
    app.press(Key::Char('i'));
    app.press(Key::Enter);
    assert_eq!(app.screen(), Screen::Editing(EditField::Title));
}

#[test]
fn a_stored_task_enters_the_store_under_its_id() {
    let mut app = open_with(&["A"]);
    let mut task = Task::default();
    task.title = "new".to_string();
    assert!(app.finish_insert(task, Ok(77)).is_ok());
    assert_eq!(titles(&app), vec!["A", "new"]);
    assert_eq!(app.tasks().get(1).id, Some(77));
    assert_eq!(app.tasks().selected(), Some(1));
    assert_eq!(app.screen(), Screen::Editing(EditField::Title));
}

#[test]
fn a_failed_create_changes_nothing() {
    let mut app = open_with(&["A"]);
    app.handle_key_event(Key::Char('g')).unwrap();
    let failed = app.finish_insert(Task::default(), Err(StorageError::NotFound));
    assert!(matches!(failed, Err(StorageError::NotFound)));
    assert_eq!(titles(&app), vec!["A"]);
    assert_eq!(app.tasks().selected(), Some(0));
    assert_eq!(app.screen(), Screen::Browsing);
}

#[test]
fn a_failed_delete_changes_nothing() {
    let mut app = open_with(&["A", "B"]);
    app.handle_key_event(Key::Char('G')).unwrap();
    let failed = app.finish_delete(Err(StorageError::NotFound));
    assert!(matches!(failed, Err(StorageError::NotFound)));
    assert_eq!(titles(&app), vec!["A", "B"]);
    assert_eq!(app.tasks().selected(), Some(1));
    assert!(app.finish_delete(Ok(())).is_ok());
    assert_eq!(titles(&app), vec!["A"]);
    assert_eq!(app.tasks().selected(), Some(0));
}

#[test]
fn a_failed_commit_goes_on_editing() {
    let mut app = open_with(&["A"]);
    press(&mut app, &[Key::Char('i'), Key::Tab]);
    let failed = app.finish_commit(Err(StorageError::NotFound));
    assert!(matches!(failed, Err(StorageError::NotFound)));
    assert_eq!(app.screen(), Screen::Editing(EditField::Description));
    assert!(app.finish_commit(Ok(())).is_ok());
    assert_eq!(app.screen(), Screen::Browsing);
}

#[test]
fn a_storage_failure_is_returned_and_leaves_the_state() {
    let mut app = open_with(&["A", "B"]);
    app.handle_key_event(Key::Char('g')).unwrap();
    app.connection().execute("drop table tasks", ()).unwrap();
    assert!(matches!(
        app.handle_key_event(Key::Char('o')),
        Err(StorageError::Database(_))
    ));
    assert!(matches!(
        app.handle_key_event(Key::Char('d')),
        Err(StorageError::Database(_))
    ));
    assert_eq!(titles(&app), vec!["A", "B"]);
    assert_eq!(app.tasks().selected(), Some(0));
    assert_eq!(app.screen(), Screen::Browsing);
    press(&mut app, &[Key::Char('i'), Key::Char('x')]);
    assert!(matches!(
        app.handle_key_event(Key::Enter),
        Err(StorageError::Database(_))
    ));
    assert_eq!(app.screen(), Screen::Editing(EditField::Title));
    assert_eq!(titles(&app), vec!["Ax", "B"]);
}

#[test]
fn every_key_sequence_keeps_the_selection_in_range() {
    let keys = [
        Key::Char('o'),
        Key::Char('d'),
        Key::Char('i'),
        Key::Char('j'),
        Key::Char('k'),
        Key::Char('G'),
        Key::Char('h'),
        Key::Enter,
        Key::Backspace,
        Key::Left,
    ];
    for a in keys {
        for b in keys {
            for c in keys {
                let mut app = open_with(&["A"]);
                for key in [a, b, c, Key::Char('d'), Key::Char('d')] {
                    app.handle_key_event(key).unwrap();
                    let len = app.tasks().len();
                    assert!(app.tasks().selected().map_or(true, |i| i < len));
                    if matches!(app.screen(), Screen::Editing(_)) {
                        assert!(len > 0);
                    }
                }
            }
        }
    }
}

#[test]
fn an_application_is_built_on_given_tasks() {
    let mut first = Task::default();
    first.title = "A".to_string();
    let mut second = Task::default();
    second.title = "B".to_string();
    let conn = Connection::open_in_memory().unwrap();
    let app = App::with_tasks(conn, vec![first, second]);
    assert_eq!(titles(&app), vec!["A", "B"]);
    assert_eq!(app.tasks().selected(), None);
    assert_eq!(app.screen(), Screen::Browsing);
    assert!(!app.should_exit());
}

#[test]
fn the_application_keeps_the_connection_that_it_was_opened_on() {
    let conn = Connection::open_in_memory().unwrap();
    conn.execute("create table marks (note text)", ()).unwrap();
    conn.execute("insert into marks (note) values ('mine')", ()).unwrap();
    let mut app = App::new(conn).unwrap();
    press(&mut app, &[Key::Char('o'), Key::Char('x'), Key::Enter, Key::Char('d')]);
    let note: String = app
        .connection()
        .query_row("select note from marks", (), |row| row.get(0))
        .unwrap();
    assert_eq!(note, "mine");
}

#[test]
fn opening_on_a_database_that_cannot_be_read_fails() {
    let conn = Connection::open_in_memory().unwrap();
    conn.execute("create view tasks as select 1 as x", ()).unwrap();
    assert!(matches!(App::new(conn), Err(StorageError::Database(_))));
}

#[test]
fn a_delete_that_is_finished_while_its_task_is_edited_ends_the_edit() {
    let mut app = open_with(&["A", "B"]);
    press(&mut app, &[Key::Char('G'), Key::Char('i'), Key::Tab]);
    assert_eq!(app.screen(), Screen::Editing(EditField::Description));
    assert!(app.finish_delete(Ok(())).is_ok());
    assert_eq!(titles(&app), vec!["A"]);
    assert_eq!(app.tasks().selected(), Some(0));
    assert_eq!(app.screen(), Screen::Browsing);
    app.handle_key_event(Key::Char('i')).unwrap();
    assert!(app.finish_delete(Ok(())).is_ok());
    assert_eq!(app.tasks().len(), 0);
    assert_eq!(app.tasks().selected(), None);
    assert_eq!(app.screen(), Screen::Browsing);
}

#[test]
fn a_delete_that_is_finished_while_quitting_is_asked_keeps_the_question() {
    let mut app = open_with(&["A", "B"]);
    press(&mut app, &[Key::Char('g'), Key::Char('q')]);
    assert!(app.finish_delete(Ok(())).is_ok());
    assert_eq!(titles(&app), vec!["B"]);
    assert_eq!(app.tasks().selected(), Some(0));
    assert_eq!(app.screen(), Screen::ConfirmingExit);
    assert!(!app.should_exit());
}
