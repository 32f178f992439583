use r_todo::editing::{EditingState, SelectableField};
use r_todo::sorting::{may_precede, sort_stable, SortCriteria};
use r_todo::store::{
    active_todos, delete_values, insert_values, todo_of_row, update_values, DatabaseError,
    DatabaseHandler, SqlValue, StoredRow,
};
use r_todo::text::split_lines;
use r_todo::todo::{Priority, Todo};

fn row(id: i64, text: &str, created_at: i64, deleted_at: Option<i64>, priority: Option<i64>) -> StoredRow {
    StoredRow {
        id,
        text: text.to_string(),
        completed: false,
        created_at,
        modified_at: None,
        completed_at: None,
        deleted_at,
        priority,
    }
}

fn item(text: &str, completed: bool, created_at: i64, priority: Option<Priority>) -> Todo {
    Todo { id: 0, text: text.to_string(), completed, created_at, completed_at: None, priority }
}

fn names(todos: &Vec<Todo>) -> Vec<String> {
    todos.iter().map(|t| t.text.clone()).collect()
}

#[test]
fn priority_numbers() {
    assert_eq!(DatabaseHandler::priority_to_int(Some(Priority::High)), 1);
    assert_eq!(DatabaseHandler::priority_to_int(Some(Priority::Medium)), 2);
    assert_eq!(DatabaseHandler::priority_to_int(Some(Priority::Low)), 3);
    assert_eq!(DatabaseHandler::priority_to_int(None), 0);
    assert_eq!(DatabaseHandler::int_to_priority(1), Some(Priority::High));
    assert_eq!(DatabaseHandler::int_to_priority(2), Some(Priority::Medium));
    assert_eq!(DatabaseHandler::int_to_priority(3), Some(Priority::Low));
    assert_eq!(DatabaseHandler::int_to_priority(0), None);
    assert_eq!(DatabaseHandler::int_to_priority(4), None);
    assert_eq!(DatabaseHandler::int_to_priority(-1), None);
}

#[test]
fn priority_labels_and_cycle() {
    assert_eq!(Priority::Low.label(), "Low");
    assert_eq!(Priority::Medium.label(), "Medium");
    assert_eq!(Priority::High.label(), "High");
    assert_eq!(Priority::High.next(), Priority::Medium);
    assert_eq!(Priority::Medium.next(), Priority::Low);
    assert_eq!(Priority::Low.next(), Priority::High);
    assert_eq!(Priority::High.previous(), Priority::Low);
    assert_eq!(Priority::Medium.previous(), Priority::High);
    assert_eq!(Priority::Low.previous(), Priority::Medium);
}

#[test]
fn new_todo_is_open_and_unstored() {
    let fresh = Todo::new("now".to_string());
    assert_eq!(fresh.id, 0);
    assert_eq!(fresh.text, "now");
    assert!(!fresh.completed);
    assert!(fresh.created_at > 1_600_000_000_000_000);
    assert_eq!(fresh.completed_at, None);
    assert_eq!(fresh.priority, None);
    let todo = Todo::created("write".to_string(), 123);
    assert_eq!(todo.id, 0);
    assert_eq!(todo.text, "write");
    assert!(!todo.completed);
    assert_eq!(todo.created_at, 123);
    assert_eq!(todo.completed_at, None);
    assert_eq!(todo.priority, None);
    let done = todo.toggled(200);
    assert!(done.completed);
    assert_eq!(done.completed_at, Some(200));
    let open = done.toggled(300);
    assert!(!open.completed);
    assert_eq!(open.completed_at, None);
    let copy = done.clone();
    assert_eq!(copy.text, "write");
    assert_eq!(copy.completed_at, Some(200));
}

#[test]
fn error_messages() {
    assert_eq!(
        DatabaseError::ConnectionError("no file".to_string()).message(),
        "Failed to connect to database: no file"
    );
    assert_eq!(
        DatabaseError::OperationError("locked".to_string()).message(),
        "Failed to exeute database operation: locked"
    );
}

#[test]
fn unopenable_database_is_a_connection_error() {
    let opened = DatabaseHandler::new("/nonexistent-directory/none/todos.db");
    assert!(matches!(opened, Err(DatabaseError::ConnectionError(_))));
}

#[test]
fn rows_become_todos() {
    let mut stored = row(7, "t", 5, None, Some(1));
    stored.completed = true;
    stored.completed_at = Some(9);
    let todo = todo_of_row(&stored);
    assert_eq!(todo.id, 7);
    assert_eq!(todo.text, "t");
    assert!(todo.completed);
    assert_eq!(todo.created_at, 5);
    assert_eq!(todo.completed_at, Some(9));
    assert_eq!(todo.priority, Some(Priority::High));
    assert_eq!(todo_of_row(&row(1, "n", 1, None, None)).priority, None);
    assert_eq!(todo_of_row(&row(1, "n", 1, None, Some(0))).priority, None);
}

#[test]
fn load_order_is_priority_then_newest_first() {
    let rows = vec![
        row(1, "low old", 10, None, Some(3)),
        row(2, "high old", 20, None, Some(1)),
        row(3, "deleted", 30, Some(31), Some(1)),
        row(4, "high new", 40, None, Some(1)),
        row(5, "unset", 50, None, None),
        row(6, "medium", 60, None, Some(2)),
        row(7, "low new", 70, None, Some(3)),
    ];
    let todos = active_todos(&rows);
    assert_eq!(
        names(&todos),
        vec!["high new", "high old", "medium", "low new", "low old", "unset"]
    );
}

#[test]
fn statement_values() {
    let mut todo = item("t", true, 11, Some(Priority::Low));
    todo.id = 4;
    todo.completed_at = Some(12);
    let values = insert_values(&todo);
    assert_eq!(values.len(), 4);
    assert!(matches!(&values[0], SqlValue::Text(s) if s == "t"));
    assert!(matches!(values[1], SqlValue::Integer(1)));
    assert!(matches!(values[2], SqlValue::Integer(11)));
    assert!(matches!(values[3], SqlValue::Integer(3)));
    let values = update_values(&todo, 99);
    assert_eq!(values.len(), 6);
    assert!(matches!(&values[0], SqlValue::Text(s) if s == "t"));
    assert!(matches!(values[1], SqlValue::Integer(1)));
    assert!(matches!(values[2], SqlValue::Integer(99)));
    assert!(matches!(values[3], SqlValue::Integer(12)));
    assert!(matches!(values[4], SqlValue::Integer(3)));
    assert!(matches!(values[5], SqlValue::Integer(4)));
    todo.completed = false;
    todo.completed_at = None;
    let values = update_values(&todo, 99);
    assert!(matches!(values[1], SqlValue::Integer(0)));
    assert!(matches!(values[3], SqlValue::Null));
    let values = delete_values(4, 100);
    assert_eq!(values.len(), 2);
    assert!(matches!(values[0], SqlValue::Integer(100)));
    assert!(matches!(values[1], SqlValue::Integer(4)));
}

#[test]
fn store_round_trip() {
    let mut db = DatabaseHandler::new(":memory:").unwrap();
    let mut todo = item("first", false, 1_000, Some(Priority::Medium));
    todo.id = 999;
    let id = db.insert_todo(&todo).unwrap();
    assert_eq!(id, 1);
    let second = db.insert_todo(&item("second", false, 2_000, None)).unwrap();
    assert_eq!(second, 2);
    let rows = db.load_rows().unwrap();
    assert_eq!(rows.len(), 2);
    assert_eq!(rows[0].id, 1);
    assert_eq!(rows[0].text, "first");
    assert!(!rows[0].completed);
    assert_eq!(rows[0].created_at, 1_000);
    assert_eq!(rows[0].modified_at, None);
    assert_eq!(rows[0].completed_at, None);
    assert_eq!(rows[0].deleted_at, None);
    assert_eq!(rows[0].priority, Some(2));
    assert_eq!(rows[1].priority, Some(0));

    todo.id = 1;
    let done = todo.toggled(3_000);
    db.update_todo(&done).unwrap();
    let rows = db.load_rows().unwrap();
    assert!(rows[0].completed);
    assert_eq!(rows[0].completed_at, Some(3_000));
    assert!(rows[0].modified_at.is_some());
    assert_eq!(rows[0].created_at, 1_000);
    assert_eq!(rows[1].modified_at, None);

    db.delete_todo(2).unwrap();
    let todos = db.load_todos().unwrap();
    assert_eq!(names(&todos), vec!["first"]);
    assert_eq!(db.load_rows().unwrap().len(), 2);
    let third = db.insert_todo(&item("third", false, 4_000, None)).unwrap();
    assert_eq!(third, 3);
}

#[test]
fn lines_of_a_message() {
    assert_eq!(split_lines(""), Vec::<String>::new());
    assert_eq!(split_lines("one"), vec!["one"]);
    assert_eq!(split_lines("one\n"), vec!["one"]);
    assert_eq!(split_lines("one\ntwo"), vec!["one", "two"]);
    assert_eq!(split_lines("one\r\ntwo\r\n"), vec!["one", "two"]);
    assert_eq!(split_lines("\n"), vec![""]);
    assert_eq!(split_lines("a\n\nb"), vec!["a", "", "b"]);
    assert_eq!(split_lines("a\r"), vec!["a\r"]);
    assert_eq!(split_lines("a\rb\n"), vec!["a\rb"]);
    assert_eq!(split_lines("\r\n"), vec![""]);
    assert_eq!(split_lines("\u{e9}t\u{e9}\nfin"), vec!["\u{e9}t\u{e9}", "fin"]);
    for text in ["", "x", "x\n", "\n\n", "a\r\n\r\nb", "a\n\rb", "tail\r"] {
        let expected: Vec<String> = text.lines().map(String::from).collect();
        assert_eq!(split_lines(text), expected);
    }
}

#[test]
fn stable_sort_orders_and_keeps_ties() {
    let items = vec![
        item("m1", false, 3, Some(Priority::Medium)),
        item("h1", true, 1, Some(Priority::High)),
        item("m2", true, 2, Some(Priority::Medium)),
        item("n1", false, 5, None),
        item("l1", false, 4, Some(Priority::Low)),
        item("h2", false, 6, Some(Priority::High)),
    ];
    let asc = sort_stable(items.clone(), SortCriteria::Priority, true);
    assert_eq!(names(&asc), vec!["n1", "l1", "m1", "m2", "h1", "h2"]);
    let desc = sort_stable(items.clone(), SortCriteria::Priority, false);
    assert_eq!(names(&desc), vec!["h1", "h2", "m1", "m2", "l1", "n1"]);
    let again = sort_stable(desc, SortCriteria::Priority, false);
    assert_eq!(names(&again), vec!["h1", "h2", "m1", "m2", "l1", "n1"]);
    let open_first = sort_stable(items.clone(), SortCriteria::Completed, true);
    assert_eq!(names(&open_first), vec!["m1", "n1", "l1", "h2", "h1", "m2"]);
    let done_first = sort_stable(items.clone(), SortCriteria::Completed, false);
    assert_eq!(names(&done_first), vec!["h1", "m2", "m1", "n1", "l1", "h2"]);
    let oldest = sort_stable(items.clone(), SortCriteria::CreatedDate, true);
    assert_eq!(names(&oldest), vec!["h1", "m2", "m1", "l1", "n1", "h2"]);
    let newest = sort_stable(items, SortCriteria::CreatedDate, false);
    assert_eq!(names(&newest), vec!["h2", "n1", "l1", "m1", "m2", "h1"]);
    assert!(sort_stable(Vec::new(), SortCriteria::Priority, true).is_empty());
}

#[test]
fn order_of_two_tasks() {
    let a = item("a", false, i64::MIN, Some(Priority::Low));
    let b = item("b", true, i64::MAX, Some(Priority::High));
    assert!(may_precede(&a, &b, SortCriteria::Priority, true));
    assert!(!may_precede(&a, &b, SortCriteria::Priority, false));
    assert!(may_precede(&a, &a, SortCriteria::Priority, false));
    assert!(may_precede(&a, &b, SortCriteria::Completed, true));
    assert!(!may_precede(&b, &a, SortCriteria::Completed, true));
    assert!(may_precede(&b, &a, SortCriteria::Completed, false));
    assert!(may_precede(&a, &b, SortCriteria::CreatedDate, true));
    assert!(!may_precede(&a, &b, SortCriteria::CreatedDate, false));
}

#[test]
fn typing_into_the_session() {
    let mut session = EditingState::for_new();
    session.type_char('h');
    session.type_char('i');
    assert_eq!(session.input_fields.text, "hi");
    assert_eq!(session.input_fields.priority, Some(Priority::Medium));
    session.backspace();
    assert_eq!(session.input_fields.text, "h");
    session.backspace();
    session.backspace();
    assert_eq!(session.input_fields.text, "");
    assert!(!session.has_text());

    session.next_field();
    assert_eq!(session.selected_field, Some(SelectableField::Priority));
    session.type_char('x');
    assert_eq!(session.input_fields.text, "");
    assert_eq!(session.input_fields.priority, Some(Priority::Medium));
    session.type_char('j');
    assert_eq!(session.input_fields.priority, Some(Priority::Low));
    session.type_char('j');
    assert_eq!(session.input_fields.priority, Some(Priority::High));
    session.type_char('k');
    assert_eq!(session.input_fields.priority, Some(Priority::Low));
    session.type_char('1');
    assert_eq!(session.input_fields.priority, Some(Priority::High));
    session.type_char('m');
    assert_eq!(session.input_fields.priority, Some(Priority::Medium));
    session.type_char('2');
    assert_eq!(session.input_fields.priority, Some(Priority::Medium));
    session.type_char('l');
    assert_eq!(session.input_fields.priority, Some(Priority::Low));
    session.type_char('3');
    assert_eq!(session.input_fields.priority, Some(Priority::Low));
    session.type_char('h');
    assert_eq!(session.input_fields.priority, Some(Priority::High));
    session.backspace();
    assert_eq!(session.input_fields.priority, Some(Priority::High));
    session.next_field();
    assert_eq!(session.selected_field, Some(SelectableField::Text));
    session.type_char('z');
    assert!(session.has_text());
    session.clear();
    assert_eq!(session.input_fields.text, "");
    assert_eq!(session.input_fields.priority, None);
    assert_eq!(session.selected_field, Some(SelectableField::Text));
}

#[test]
fn idle_session_ignores_typing() {
    let mut session = EditingState::idle();
    session.type_char('a');
    session.backspace();
    assert_eq!(session.input_fields.text, "");
    assert_eq!(session.input_fields.priority, None);
    session.next_field();
    assert_eq!(session.selected_field, Some(SelectableField::Text));
    session.input_fields.priority = None;
    session.next_field();
    session.type_char('k');
    assert_eq!(session.input_fields.priority, Some(Priority::High));
}

#[test]
fn failing_statement_is_an_operation_error() {
    let path = "file:r_todo_broken_table?mode=memory&cache=shared";
    let keeper = rusqlite::Connection::open(path).unwrap();
    keeper.execute("CREATE TABLE todos (id INTEGER PRIMARY KEY, note TEXT)", ()).unwrap();
    keeper.execute("INSERT INTO todos (note) VALUES ('x')", ()).unwrap();
    let mut db = DatabaseHandler::new(path).unwrap();
    assert!(matches!(
        db.insert_todo(&item("t", false, 1, None)),
        Err(DatabaseError::OperationError(_))
    ));
    assert!(matches!(
        db.update_todo(&item("t", false, 1, None)),
        Err(DatabaseError::OperationError(_))
    ));
    assert!(matches!(db.delete_todo(1), Err(DatabaseError::OperationError(_))));
    assert!(matches!(db.load_rows(), Err(DatabaseError::OperationError(_))));
    assert!(matches!(db.load_todos(), Err(DatabaseError::OperationError(_))));
    let count: i64 = keeper.query_row("SELECT COUNT(*) FROM todos", (), |row| row.get(0)).unwrap();
    assert_eq!(count, 1);
}
