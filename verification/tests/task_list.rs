use r_todo::keys::{Key, Reaction};
use r_todo::sorting::SortCriteria;
use r_todo::state::{App, Mode};
use r_todo::store::DatabaseError;
use r_todo::todo::{Priority, Todo};

fn open() -> App {
    match App::new(":memory:") {
        Ok(app) => app,
        Err(e) => panic!("{}", e.message()),
    }
}

fn texts(app: &App) -> Vec<String> {
    app.todos.iter().map(|t| t.text.clone()).collect()
}

fn task(id: i64, text: &str, completed: bool, created_at: i64, priority: Option<Priority>) -> Todo {
    Todo {
        id,
        text: text.to_string(),
        completed,
        created_at,
        completed_at: if completed { Some(created_at) } else { None },
        priority,
    }
}

fn failure() -> DatabaseError {
    DatabaseError::OperationError("disk full".to_string())
}

#[test]
fn new_app_starts_empty_in_normal_mode() {
    let app = open();
    assert!(app.todos.is_empty());
    assert_eq!(app.mode, Mode::Normal);
    assert_eq!(app.selected, Some(0));
    assert_eq!(app.sort_by, SortCriteria::Priority);
    assert!(app.sort_asc);
    assert!(!app.show_help);
    assert!(app.error_message.is_none());
    assert!(app.error_shown_at.is_none());
    assert_eq!(app.editing_state.input_fields.text, "");
    assert_eq!(app.editing_state.input_fields.priority, None);
    assert_eq!(app.editing_state.selected_field, None);
}

#[test]
fn add_then_toggle_then_delete() {
    let mut app = open();
    assert!(app.add_todo("buy milk".to_string(), Priority::Medium).is_ok());
    assert_eq!(app.todos.len(), 1);
    assert_eq!(app.todos[0].text, "buy milk");
    assert_eq!(app.todos[0].priority, Some(Priority::Medium));
    assert!(!app.todos[0].completed);
    assert_eq!(app.todos[0].completed_at, None);
    assert_eq!(app.todos[0].id, 1);

    assert!(app.toggle_todo(0).is_ok());
    assert!(app.todos[0].completed);
    assert!(app.todos[0].completed_at.is_some());

    assert!(app.delete_todo(0).is_ok());
    assert!(app.todos.is_empty());
    let rows = app.db.load_rows().unwrap();
    assert_eq!(rows.len(), 1);
    assert_eq!(rows[0].id, 1);
    assert_eq!(rows[0].text, "buy milk");
    assert!(rows[0].completed);
    assert!(rows[0].deleted_at.is_some());
    assert!(app.db.load_todos().unwrap().is_empty());
}

#[test]
fn sort_by_priority_in_both_directions() {
    let mut app = open();
    app.add_todo("A".to_string(), Priority::High).unwrap();
    app.add_todo("B".to_string(), Priority::Low).unwrap();
    app.sort(SortCriteria::Priority, false);
    assert_eq!(texts(&app), vec!["A", "B"]);
    assert_eq!(app.sort_by, SortCriteria::Priority);
    assert!(!app.sort_asc);
    app.sort(SortCriteria::Priority, true);
    assert_eq!(texts(&app), vec!["B", "A"]);
    assert!(app.sort_asc);
}

#[test]
fn commit_without_text_is_rejected() {
    let mut app = open();
    app.selected = None;
    app.begin_create();
    assert_eq!(app.mode, Mode::Editing);
    assert_eq!(app.selected, None);
    assert_eq!(app.editing_state.input_fields.text, "");
    let done = app.commit_edit();
    assert!(matches!(done, Ok(false)));
    assert_eq!(app.mode, Mode::Editing);
    assert!(app.todos.is_empty());
    assert!(app.db.load_rows().unwrap().is_empty());
    assert!(app.error_message.is_none());
}

#[test]
fn list_matches_a_fresh_load_after_each_change() {
    let mut app = open();
    app.sort_by = SortCriteria::Priority;
    app.sort_asc = false;
    let check = |app: &App| {
        let mut loaded: Vec<(i64, String, bool, Option<Priority>)> = app
            .db
            .load_todos()
            .unwrap()
            .into_iter()
            .map(|t| (t.id, t.text, t.completed, t.priority))
            .collect();
        let mut held: Vec<(i64, String, bool, Option<Priority>)> = app
            .todos
            .iter()
            .map(|t| (t.id, t.text.clone(), t.completed, t.priority))
            .collect();
        loaded.sort_by_key(|t| t.0);
        held.sort_by_key(|t| t.0);
        assert_eq!(loaded, held);
    };
    app.add_todo("one".to_string(), Priority::Low).unwrap();
    check(&app);
    app.add_todo("two".to_string(), Priority::High).unwrap();
    check(&app);
    app.add_todo("three".to_string(), Priority::Medium).unwrap();
    check(&app);
    app.toggle_todo(1).unwrap();
    check(&app);
    app.update_todo(2, "uno".to_string(), Priority::High).unwrap();
    check(&app);
    app.delete_todo(0).unwrap();
    check(&app);
    app.toggle_todo(0).unwrap();
    app.clear_completed().unwrap();
    check(&app);
    assert_eq!(app.db.load_rows().unwrap().len(), 3);
}

#[test]
fn toggling_twice_restores_an_open_task() {
    let mut app = open();
    app.add_todo("walk".to_string(), Priority::Low).unwrap();
    let created = app.todos[0].created_at;
    app.toggle_todo(0).unwrap();
    assert!(app.todos[0].completed);
    app.toggle_todo(0).unwrap();
    assert!(!app.todos[0].completed);
    assert_eq!(app.todos[0].completed_at, None);
    assert_eq!(app.todos[0].created_at, created);
    let loaded = app.db.load_todos().unwrap();
    assert!(!loaded[0].completed);
    assert_eq!(loaded[0].completed_at, None);
}

#[test]
fn finish_toggle_sets_the_given_time() {
    let mut app = open();
    app.todos.push(task(5, "a", false, 10, Some(Priority::Low)));
    assert!(app.finish_toggle(0, 77, Ok(())).is_ok());
    assert!(app.todos[0].completed);
    assert_eq!(app.todos[0].completed_at, Some(77));
    assert!(app.finish_toggle(0, 99, Ok(())).is_ok());
    assert!(!app.todos[0].completed);
    assert_eq!(app.todos[0].completed_at, None);
}

#[test]
fn deleted_row_is_hidden_from_update_and_delete() {
    let mut app = open();
    app.add_todo("gone".to_string(), Priority::High).unwrap();
    let todo = app.todos[0].clone();
    app.delete_todo(0).unwrap();
    let before = app.db.load_rows().unwrap();
    let deleted_at = before[0].deleted_at;
    assert!(deleted_at.is_some());

    let changed = todo.revised("back".to_string(), Priority::Low);
    assert!(app.db.update_todo(&changed).is_ok());
    assert!(app.db.delete_todo(todo.id).is_ok());
    let after = app.db.load_rows().unwrap();
    assert_eq!(after.len(), 1);
    assert_eq!(after[0].text, "gone");
    assert_eq!(after[0].priority, Some(1));
    assert_eq!(after[0].modified_at, None);
    assert_eq!(after[0].deleted_at, deleted_at);
    assert!(app.db.load_todos().unwrap().is_empty());
}

#[test]
fn sorting_twice_keeps_equal_tasks_in_order() {
    let mut app = open();
    app.sort_by = SortCriteria::Priority;
    app.sort_asc = false;
    app.add_todo("A".to_string(), Priority::Medium).unwrap();
    app.add_todo("B".to_string(), Priority::Medium).unwrap();
    app.add_todo("C".to_string(), Priority::High).unwrap();
    app.sort(SortCriteria::Priority, false);
    assert_eq!(texts(&app), vec!["C", "A", "B"]);
    app.sort(SortCriteria::Priority, false);
    assert_eq!(texts(&app), vec!["C", "A", "B"]);
    app.sort_asc = true;
    app.sort_todos();
    assert_eq!(texts(&app), vec!["A", "B", "C"]);
}

#[test]
fn navigation_on_an_empty_list_selects_zero() {
    let mut app = open();
    app.select_next();
    assert_eq!(app.selected, Some(0));
    app.select_previous();
    assert_eq!(app.selected, Some(0));
    app.selected = None;
    app.select_previous();
    assert_eq!(app.selected, Some(0));
    app.selected = None;
    app.select_next();
    assert_eq!(app.selected, Some(0));
}

#[test]
fn navigation_wraps_around() {
    let mut app = open();
    app.add_todo("a".to_string(), Priority::Low).unwrap();
    app.add_todo("b".to_string(), Priority::Low).unwrap();
    app.add_todo("c".to_string(), Priority::Low).unwrap();
    assert_eq!(app.selected, Some(0));
    app.select_next();
    assert_eq!(app.selected, Some(1));
    app.select_next();
    assert_eq!(app.selected, Some(2));
    app.select_next();
    assert_eq!(app.selected, Some(0));
    app.select_previous();
    assert_eq!(app.selected, Some(2));
    app.select_previous();
    assert_eq!(app.selected, Some(1));
}

#[test]
fn add_sorts_by_the_current_order() {
    let mut app = open();
    app.sort_by = SortCriteria::Priority;
    app.sort_asc = true;
    app.add_todo("h".to_string(), Priority::High).unwrap();
    app.add_todo("l".to_string(), Priority::Low).unwrap();
    app.add_todo("m".to_string(), Priority::Medium).unwrap();
    assert_eq!(texts(&app), vec!["l", "m", "h"]);
    assert_eq!(app.todos[0].id, 2);
    assert_eq!(app.todos[1].id, 3);
    assert_eq!(app.todos[2].id, 1);
}

#[test]
fn failed_add_leaves_the_list_and_shows_the_error() {
    let mut app = open();
    app.todos.push(task(1, "kept", false, 1, Some(Priority::Low)));
    let done = app.finish_add(task(0, "lost", false, 2, Some(Priority::High)), Err(failure()), 500);
    assert!(matches!(done, Err(DatabaseError::OperationError(_))));
    assert_eq!(texts(&app), vec!["kept"]);
    assert_eq!(
        app.error_message,
        Some(vec!["Failed to add todo: Failed to exeute database operation: disk full".to_string()])
    );
    assert_eq!(app.error_shown_at, Some(500));
}

#[test]
fn confirmed_add_takes_the_id_of_the_store() {
    let mut app = open();
    app.sort_by = SortCriteria::CreatedDate;
    app.sort_asc = false;
    app.todos.push(task(1, "old", false, 1, Some(Priority::Low)));
    let done = app.finish_add(task(0, "new", false, 2, Some(Priority::High)), Ok(42), 500);
    assert!(done.is_ok());
    assert_eq!(texts(&app), vec!["new", "old"]);
    assert_eq!(app.todos[0].id, 42);
    assert!(app.error_message.is_none());
}

#[test]
fn failed_toggle_update_and_delete_change_only_the_message() {
    let mut app = open();
    app.todos.push(task(1, "a", false, 1, Some(Priority::Low)));
    assert!(app.finish_toggle(0, 9, Err(failure())).is_err());
    assert!(!app.todos[0].completed);
    assert_eq!(
        app.error_message,
        Some(vec!["Failed to toggle todo: Failed to exeute database operation: disk full".to_string()])
    );
    assert!(app.finish_update(0, "b".to_string(), Priority::High, Err(failure()), 10).is_err());
    assert_eq!(app.todos[0].text, "a");
    assert_eq!(app.todos[0].priority, Some(Priority::Low));
    assert_eq!(
        app.error_message,
        Some(vec!["Failed to update todo: Failed to exeute database operation: disk full".to_string()])
    );
    assert!(app.finish_delete(0, Err(failure()), 11).is_err());
    assert_eq!(app.todos.len(), 1);
    assert_eq!(
        app.error_message,
        Some(vec!["Failed to delete todo: Failed to exeute database operation: disk full".to_string()])
    );
    assert_eq!(app.error_shown_at, Some(11));
}

#[test]
fn out_of_range_index_is_ignored() {
    let mut app = open();
    app.add_todo("a".to_string(), Priority::Low).unwrap();
    assert!(app.toggle_todo(1).is_ok());
    assert!(app.update_todo(5, "x".to_string(), Priority::High).is_ok());
    assert!(app.delete_todo(1).is_ok());
    assert!(app.finish_toggle(3, 1, Err(failure())).is_ok());
    assert!(app.finish_update(3, "x".to_string(), Priority::High, Err(failure()), 1).is_ok());
    assert!(app.finish_delete(3, Err(failure()), 1).is_ok());
    assert_eq!(texts(&app), vec!["a"]);
    assert!(!app.todos[0].completed);
    assert!(app.error_message.is_none());
}

#[test]
fn update_changes_text_and_priority() {
    let mut app = open();
    app.add_todo("a".to_string(), Priority::Low).unwrap();
    app.update_todo(0, "b".to_string(), Priority::High).unwrap();
    assert_eq!(app.todos[0].text, "b");
    assert_eq!(app.todos[0].priority, Some(Priority::High));
    let rows = app.db.load_rows().unwrap();
    assert_eq!(rows[0].text, "b");
    assert_eq!(rows[0].priority, Some(1));
    assert!(rows[0].modified_at.is_some());
}

#[test]
fn delete_clamps_the_selection() {
    let mut app = open();
    app.add_todo("a".to_string(), Priority::Low).unwrap();
    app.add_todo("b".to_string(), Priority::Low).unwrap();
    app.selected = Some(1);
    app.delete_todo(1).unwrap();
    assert_eq!(app.selected, Some(0));
    app.delete_todo(0).unwrap();
    assert_eq!(app.selected, None);
}

#[test]
fn clear_removes_only_what_the_store_deleted() {
    let mut app = open();
    app.todos.push(task(1, "a", true, 1, None));
    app.todos.push(task(2, "b", false, 2, None));
    app.todos.push(task(3, "c", true, 3, None));
    app.todos.push(task(4, "d", true, 4, None));
    app.selected = Some(3);
    let outcomes = vec![
        Ok(()),
        Err(DatabaseError::OperationError("first".to_string())),
        Err(DatabaseError::OperationError("second".to_string())),
    ];
    let done = app.finish_clear(outcomes, 8);
    match done {
        Err(DatabaseError::OperationError(detail)) => assert_eq!(detail, "first"),
        _ => panic!("the first failure is returned"),
    }
    assert_eq!(texts(&app), vec!["b", "c", "d"]);
    assert_eq!(app.selected, Some(2));
    assert_eq!(
        app.error_message,
        Some(vec![
            "Failed to clear completed todos: Failed to exeute database operation: first".to_string()
        ])
    );
    assert_eq!(app.error_shown_at, Some(8));
}

#[test]
fn clear_completed_deletes_every_completed_task() {
    let mut app = open();
    app.add_todo("a".to_string(), Priority::Low).unwrap();
    app.add_todo("b".to_string(), Priority::Low).unwrap();
    app.add_todo("c".to_string(), Priority::Low).unwrap();
    app.toggle_todo(0).unwrap();
    app.toggle_todo(2).unwrap();
    app.selected = Some(2);
    assert!(app.clear_completed().is_ok());
    assert_eq!(texts(&app), vec!["b"]);
    assert_eq!(app.selected, Some(0));
    let rows = app.db.load_rows().unwrap();
    assert_eq!(rows.len(), 3);
    assert!(rows[0].deleted_at.is_some());
    assert!(rows[1].deleted_at.is_none());
    assert!(rows[2].deleted_at.is_some());
}

#[test]
fn set_sort_criteria_flips_or_resets_the_direction() {
    let mut app = open();
    app.add_todo("l".to_string(), Priority::Low).unwrap();
    app.add_todo("h".to_string(), Priority::High).unwrap();
    app.set_sort_criteria(SortCriteria::Priority);
    assert!(!app.sort_asc);
    assert_eq!(texts(&app), vec!["h", "l"]);
    app.set_sort_criteria(SortCriteria::Priority);
    assert!(app.sort_asc);
    assert_eq!(texts(&app), vec!["l", "h"]);
    app.toggle_todo(0).unwrap();
    app.set_sort_criteria(SortCriteria::Completed);
    assert_eq!(app.sort_by, SortCriteria::Completed);
    assert!(app.sort_asc);
    assert_eq!(texts(&app), vec!["h", "l"]);
    app.toggle_sort_direction();
    assert!(!app.sort_asc);
    assert_eq!(texts(&app), vec!["h", "l"]);
    app.sort_todos();
    assert_eq!(texts(&app), vec!["l", "h"]);
}

#[test]
fn error_expires_after_fifteen_seconds() {
    let mut app = open();
    app.show_error("one\r\ntwo\n\nthree", 1_000);
    assert_eq!(
        app.error_message,
        Some(vec!["one".to_string(), "two".to_string(), "".to_string(), "three".to_string()])
    );
    app.expire_error(15_001_000);
    assert!(app.error_message.is_some());
    assert_eq!(app.error_shown_at, Some(1_000));
    app.expire_error(15_001_001);
    assert!(app.error_message.is_none());
    assert!(app.error_shown_at.is_none());
    app.show_error("late", i64::MIN);
    app.expire_error(i64::MAX);
    assert!(app.error_message.is_none());
}

#[test]
fn set_error_and_timeout_use_the_clock() {
    let mut app = open();
    app.set_error("first line\nsecond line".to_string());
    assert_eq!(
        app.error_message,
        Some(vec!["first line".to_string(), "second line".to_string()])
    );
    let at = app.error_shown_at.unwrap();
    assert!(at > 1_600_000_000_000_000);
    app.check_error_timeout();
    assert!(app.error_message.is_some());
    app.error_shown_at = Some(at - 16_000_000);
    app.check_error_timeout();
    assert!(app.error_message.is_none());
}

#[test]
fn help_text_depends_on_the_mode() {
    let mut app = open();
    let normal = app.get_help_text();
    assert_eq!(normal.len(), 9);
    assert_eq!(normal[0], "Normal Mode Commands:");
    assert_eq!(normal[8], "q - quit application");
    app.toggle_help();
    assert!(app.show_help);
    app.begin_create();
    let editing = app.get_help_text();
    assert_eq!(
        editing,
        vec![
            "Editing Mode Commands:",
            "type to enter todo text",
            "tab - edit next field",
            "enter - save todo",
            "esc - cancel editing",
        ]
    );
}

#[test]
fn create_commit_adds_and_restores_the_selection() {
    let mut app = open();
    app.add_todo("a".to_string(), Priority::Low).unwrap();
    app.add_todo("b".to_string(), Priority::Low).unwrap();
    app.selected = Some(1);
    app.begin_create();
    assert_eq!(app.selected, None);
    assert_eq!(app.editing_state.input_fields.priority, Some(Priority::Medium));
    app.editing_state.type_char('c');
    assert!(matches!(app.commit_edit(), Ok(true)));
    assert_eq!(app.mode, Mode::Normal);
    assert_eq!(app.selected, Some(1));
    assert_eq!(app.todos.len(), 3);
    assert_eq!(app.todos[2].text, "c");
    assert_eq!(app.todos[2].priority, Some(Priority::Medium));
    assert_eq!(app.editing_state.input_fields.text, "");
    assert_eq!(app.editing_state.input_fields.priority, None);
}

#[test]
fn edit_commit_updates_the_selected_task() {
    let mut app = open();
    app.add_todo("a".to_string(), Priority::Low).unwrap();
    app.begin_edit();
    assert_eq!(app.mode, Mode::Editing);
    assert_eq!(app.editing_state.input_fields.text, "a");
    assert_eq!(app.editing_state.input_fields.priority, Some(Priority::Low));
    app.editing_state.type_char('b');
    app.editing_state.next_field();
    app.editing_state.type_char('h');
    assert!(matches!(app.commit_edit(), Ok(true)));
    assert_eq!(app.mode, Mode::Normal);
    assert_eq!(app.selected, Some(0));
    assert_eq!(app.todos.len(), 1);
    assert_eq!(app.todos[0].text, "ab");
    assert_eq!(app.todos[0].priority, Some(Priority::High));
    assert_eq!(app.db.load_rows().unwrap()[0].text, "ab");
}

#[test]
fn cancel_discards_the_session_and_keeps_the_selection() {
    let mut app = open();
    app.add_todo("a".to_string(), Priority::Low).unwrap();
    app.begin_create();
    app.editing_state.type_char('x');
    app.cancel_edit();
    assert_eq!(app.mode, Mode::Normal);
    assert_eq!(app.selected, Some(0));
    assert_eq!(app.editing_state.input_fields.text, "");
    assert_eq!(app.editing_state.input_fields.priority, None);
    assert_eq!(app.db.load_rows().unwrap().len(), 1);

    app.begin_edit();
    app.editing_state.type_char('x');
    app.cancel_edit();
    assert_eq!(app.selected, Some(0));
    assert_eq!(app.todos[0].text, "a");
    assert_eq!(app.db.load_rows().unwrap()[0].text, "a");
}

#[test]
fn edit_needs_a_selected_task() {
    let mut app = open();
    app.begin_edit();
    assert_eq!(app.mode, Mode::Normal);
    app.selected = None;
    app.begin_edit();
    assert_eq!(app.mode, Mode::Normal);
    assert!(matches!(app.commit_edit(), Ok(false)));
}

#[test]
fn store_failure_leaves_the_list_and_is_shown() {
    let path = "file:r_todo_failing_list?mode=memory&cache=shared";
    let keeper = rusqlite::Connection::open(path).unwrap();
    let mut app = match App::new(path) {
        Ok(app) => app,
        Err(e) => panic!("{}", e.message()),
    };
    app.add_todo("a".to_string(), Priority::Low).unwrap();
    app.add_todo("b".to_string(), Priority::Low).unwrap();
    app.toggle_todo(1).unwrap();
    keeper.execute("DROP TABLE todos", ()).unwrap();

    assert!(matches!(
        app.add_todo("c".to_string(), Priority::High),
        Err(DatabaseError::OperationError(_))
    ));
    assert_eq!(texts(&app), vec!["a", "b"]);
    let shown = app.error_message.clone().unwrap();
    assert!(shown[0].starts_with("Failed to add todo: Failed to exeute database operation: "));
    assert!(app.error_shown_at.is_some());

    assert!(app.toggle_todo(0).is_err());
    assert!(!app.todos[0].completed);
    assert_eq!(app.todos[0].completed_at, None);
    assert!(app.update_todo(0, "z".to_string(), Priority::High).is_err());
    assert_eq!(app.todos[0].text, "a");
    assert!(app.delete_todo(0).is_err());
    assert_eq!(app.todos.len(), 2);
    assert!(app.clear_completed().is_err());
    assert_eq!(texts(&app), vec!["a", "b"]);
    let shown = app.error_message.clone().unwrap();
    assert!(shown[0].starts_with("Failed to clear completed todos: "));
    assert_eq!(app.selected, Some(0));
}

#[test]
fn keys_drive_the_list() {
    let mut app = open();
    assert_eq!(app.handle_key(Key::Char('n')), Reaction::Continue);
    assert_eq!(app.mode, Mode::Editing);
    assert_eq!(app.handle_key(Key::Enter), Reaction::Continue);
    assert_eq!(app.mode, Mode::Editing);
    assert_eq!(app.handle_key(Key::Char('q')), Reaction::Continue);
    assert_eq!(app.handle_key(Key::Char('x')), Reaction::Continue);
    assert_eq!(app.handle_key(Key::Backspace), Reaction::Continue);
    assert_eq!(app.editing_state.input_fields.text, "q");
    assert_eq!(app.handle_key(Key::Tab), Reaction::Continue);
    assert_eq!(app.handle_key(Key::Char('1')), Reaction::Continue);
    assert_eq!(app.handle_key(Key::Enter), Reaction::Redraw);
    assert_eq!(app.mode, Mode::Normal);
    assert_eq!(texts(&app), vec!["q"]);
    assert_eq!(app.todos[0].priority, Some(Priority::High));
    assert_eq!(app.selected, Some(0));

    assert_eq!(app.handle_key(Key::Char('n')), Reaction::Continue);
    assert_eq!(app.handle_key(Key::Char('w')), Reaction::Continue);
    assert_eq!(app.handle_key(Key::Esc), Reaction::Continue);
    assert_eq!(app.mode, Mode::Normal);
    assert_eq!(app.todos.len(), 1);

    assert_eq!(app.handle_key(Key::Char(' ')), Reaction::Continue);
    assert!(app.todos[0].completed);
    assert_eq!(app.handle_key(Key::Char('e')), Reaction::Continue);
    assert_eq!(app.editing_state.input_fields.text, "q");
    assert_eq!(app.handle_key(Key::Char('!')), Reaction::Continue);
    assert_eq!(app.handle_key(Key::Enter), Reaction::Redraw);
    assert_eq!(texts(&app), vec!["q!"]);

    assert_eq!(app.handle_key(Key::Char('h')), Reaction::Continue);
    assert!(app.show_help);
    assert_eq!(app.handle_key(Key::Down), Reaction::Continue);
    assert_eq!(app.handle_key(Key::Char('j')), Reaction::Continue);
    assert_eq!(app.handle_key(Key::Up), Reaction::Continue);
    assert_eq!(app.handle_key(Key::Char('k')), Reaction::Continue);
    assert_eq!(app.selected, Some(0));
    assert_eq!(app.handle_key(Key::Char('s')), Reaction::Continue);
    assert_eq!(app.sort_by, SortCriteria::Completed);
    assert!(app.sort_asc);
    assert_eq!(app.handle_key(Key::Char('t')), Reaction::Continue);
    assert_eq!(app.sort_by, SortCriteria::CreatedDate);
    assert_eq!(app.handle_key(Key::Char('p')), Reaction::Continue);
    assert_eq!(app.sort_by, SortCriteria::Priority);
    assert_eq!(app.handle_key(Key::Char('p')), Reaction::Continue);
    assert!(!app.sort_asc);
    assert_eq!(app.handle_key(Key::Char('r')), Reaction::Continue);
    assert!(app.sort_asc);
    assert_eq!(app.handle_key(Key::Other), Reaction::Continue);
    assert_eq!(app.handle_key(Key::Char('c')), Reaction::Continue);
    assert!(app.todos.is_empty());
    assert_eq!(app.selected, None);
    assert_eq!(app.handle_key(Key::Char('d')), Reaction::Continue);
    assert_eq!(app.handle_key(Key::Char(' ')), Reaction::Continue);
    assert_eq!(app.handle_key(Key::Char('q')), Reaction::Quit);
    assert_eq!(app.db.load_rows().unwrap().len(), 1);
}
