//! The task list: the tasks in memory, the selection, the sort order, the
//! editing session, the message shown after a failure, and the store
//! behind them. Every change is written to the store first and made in
//! memory only when the store has confirmed it.

use vstd::prelude::*;
use crate::clock::current_time;
use crate::editing::{EditingState, EditingView, SelectableField};
use crate::sorting::{sort_stable, stable_sort, SortCriteria};
use crate::store::{DatabaseError, DatabaseHandler};
use crate::text::{lines_of, split_lines, texts};
use crate::todo::{Priority, Todo};

verus! {

/// Whether the user moves through the list or edits a task.
#[derive(Debug, Clone, Copy, PartialEq, Eq, Structural)]
pub enum Mode {
    Normal,
    Editing,
}

/// How long a message stays, in microseconds.
pub const ERROR_DURATION: i64 = 15_000_000;

/// The task list and what goes with it.
pub struct App {
    pub todos: Vec<Todo>,
    pub mode: Mode,
    /// The index of the selected task; none while a task is created.
    pub selected: Option<usize>,
    pub editing_state: EditingState,
    pub sort_by: SortCriteria,
    pub sort_asc: bool,
    pub show_help: bool,
    pub error_message: Option<Vec<String>>,
    /// When the message was set, in microseconds since the Unix epoch.
    pub error_shown_at: Option<i64>,
    /// The selection as it was when the creation of a task began.
    pub last_selected: Option<usize>,
    /// The store behind the list.
    pub db: DatabaseHandler,
}

/// The task list as a value, without the store.
pub struct AppView {
    pub todos: Seq<Todo>,
    pub mode: Mode,
    pub selected: Option<usize>,
    pub editing: EditingView,
    pub sort_by: SortCriteria,
    pub sort_asc: bool,
    pub show_help: bool,
    pub error_message: Option<Seq<Seq<char>>>,
    pub error_shown_at: Option<i64>,
    pub last_selected: Option<usize>,
}

/// A selection for a list of `len` tasks: none for an empty list, the
/// last task where the selection lay behind it, else the selection.
pub open spec fn clamp_selection(selected: Option<usize>, len: nat) -> Option<usize> {
    match selected {
        _ if len == 0 => None,
        Some(i) if i >= len => Some((len - 1) as usize),
        _ => selected,
    }
}

/// The task that `add_todo` hands to the store.
pub open spec fn new_todo(text: String, priority: Priority, now: i64) -> Todo {
    Todo {
        id: 0,
        text: text,
        completed: false,
        created_at: now,
        completed_at: None,
        priority: Some(priority),
    }
}

/// What is left of `todos` when the outcomes of deleting its completed
/// tasks, one outcome for each in the order of the list, are applied: a
/// completed task stays only where its deletion failed or has no outcome.
pub open spec fn kept_after_clear(
    todos: Seq<Todo>,
    outcomes: Seq<Result<(), DatabaseError>>,
) -> Seq<Todo>
    decreases todos.len(),
{
    if todos.len() == 0 {
        Seq::empty()
    } else if !todos[0].completed {
        seq![todos[0]] + kept_after_clear(todos.skip(1), outcomes)
    } else if outcomes.len() > 0 && outcomes[0].is_ok() {
        kept_after_clear(todos.skip(1), outcomes.skip(1))
    } else if outcomes.len() > 0 {
        seq![todos[0]] + kept_after_clear(todos.skip(1), outcomes.skip(1))
    } else {
        seq![todos[0]] + kept_after_clear(todos.skip(1), outcomes)
    }
}

/// The first failure among the outcomes, if there is one.
pub open spec fn first_error(outcomes: Seq<Result<(), DatabaseError>>) -> Option<DatabaseError>
    decreases outcomes.len(),
{
    if outcomes.len() == 0 {
        None
    } else {
        match outcomes[0] {
            Err(e) => Some(e),
            Ok(_) => first_error(outcomes.skip(1)),
        }
    }
}

/// The number of completed tasks in `todos`.
pub open spec fn completed_count(todos: Seq<Todo>) -> nat
    decreases todos.len(),
{
    if todos.len() == 0 {
        0
    } else if todos.last().completed {
        completed_count(todos.drop_last()) + 1
    } else {
        completed_count(todos.drop_last())
    }
}

/// The lines of help for a mode.
pub open spec fn help_lines(mode: Mode) -> Seq<Seq<char>> {
    match mode {
        Mode::Normal => seq![
            "Normal Mode Commands:"@,
            "n - new todo"@,
            "e - edit selected todo"@,
            "d - delete selected todo"@,
            "c - clear completed todos"@,
            "h - toggle help menu"@,
            "space - toggle todo completion"@,
            "k/j - navigate todos"@,
            "q - quit application"@,
        ],
        Mode::Editing => seq![
            "Editing Mode Commands:"@,
            "type to enter todo text"@,
            "tab - edit next field"@,
            "enter - save todo"@,
            "esc - cancel editing"@,
        ],
    }
}

impl AppView {
    /// The list with `message` shown since `now`, split into its lines.
    pub open spec fn notified(self, message: Seq<char>, now: i64) -> AppView {
        AppView { error_message: Some(lines_of(message)), error_shown_at: Some(now), ..self }
    }

    /// The list at the time `now`: without its message where that was
    /// set more than `ERROR_DURATION` before.
    pub open spec fn expired(self, now: i64) -> AppView {
        match self.error_shown_at {
            Some(at) if now - at > ERROR_DURATION => AppView {
                error_message: None,
                error_shown_at: None,
                ..self
            },
            _ => self,
        }
    }

    /// The list in the order of its sort field and direction.
    pub open spec fn sorted(self) -> AppView {
        AppView { todos: stable_sort(self.todos, self.sort_by, self.sort_asc), ..self }
    }

    /// The list after the store answered the insertion of `todo` with
    /// `outcome`: on success `todo` under its new id is appended and the
    /// list sorted again; on failure only the message changes.
    pub open spec fn after_add(self, todo: Todo, outcome: Result<i64, DatabaseError>, now: i64)
        -> AppView {
        match outcome {
            Ok(id) => AppView { todos: self.todos.push(Todo { id: id, ..todo }), ..self }.sorted(),
            Err(e) => self.notified("Failed to add todo: "@ + e.spec_message(), now),
        }
    }

    /// The list after the store answered the update of the task at
    /// `index` to `candidate` with `outcome`: on success `candidate`
    /// stands at `index`; on failure only the message changes, which
    /// begins with `context`. With `index` outside the list nothing
    /// changes.
    pub open spec fn after_replace(
        self,
        index: int,
        candidate: Todo,
        outcome: Result<(), DatabaseError>,
        context: Seq<char>,
        now: i64,
    ) -> AppView {
        if 0 <= index < self.todos.len() {
            match outcome {
                Ok(_) => AppView { todos: self.todos.update(index, candidate), ..self },
                Err(e) => self.notified(context + e.spec_message(), now),
            }
        } else {
            self
        }
    }

    /// The list after the task at `index` was toggled at `now` and the
    /// store answered with `outcome`.
    pub open spec fn after_toggle(self, index: int, now: i64, outcome: Result<(), DatabaseError>)
        -> AppView {
        if 0 <= index < self.todos.len() {
            self.after_replace(
                index,
                self.todos[index].spec_toggled(now),
                outcome,
                "Failed to toggle todo: "@,
                now,
            )
        } else {
            self
        }
    }

    /// The list after the task at `index` was given `text` and
    /// `priority` and the store answered with `outcome`.
    pub open spec fn after_update(
        self,
        index: int,
        text: String,
        priority: Priority,
        outcome: Result<(), DatabaseError>,
        now: i64,
    ) -> AppView {
        if 0 <= index < self.todos.len() {
            self.after_replace(
                index,
                self.todos[index].spec_revised(text, priority),
                outcome,
                "Failed to update todo: "@,
                now,
            )
        } else {
            self
        }
    }

    /// The list after the store answered the deletion of the task at
    /// `index` with `outcome`: on success the task is gone and the
    /// selection is clamped to the shorter list; on failure only the
    /// message changes. With `index` outside the list nothing changes.
    pub open spec fn after_delete(self, index: int, outcome: Result<(), DatabaseError>, now: i64)
        -> AppView {
        if 0 <= index < self.todos.len() {
            match outcome {
                Ok(_) => AppView {
                    todos: self.todos.remove(index),
                    selected: clamp_selection(self.selected, (self.todos.len() - 1) as nat),
                    ..self
                },
                Err(e) => self.notified("Failed to delete todo: "@ + e.spec_message(), now),
            }
        } else {
            self
        }
    }

    /// The list after the store answered the deletion of each completed
    /// task, in the order of the list, with `outcomes`: the tasks whose
    /// deletion succeeded are gone, the selection is clamped, and the
    /// first failure, if any, is shown.
    pub open spec fn after_clear(self, outcomes: Seq<Result<(), DatabaseError>>, now: i64)
        -> AppView {
        let kept = kept_after_clear(self.todos, outcomes);
        let cleared = AppView {
            todos: kept,
            selected: clamp_selection(self.selected, kept.len()),
            ..self
        };
        match first_error(outcomes) {
            Some(e) => cleared.notified("Failed to clear completed todos: "@ + e.spec_message(), now),
            None => cleared,
        }
    }

    /// The list with the other sort direction; the order of the tasks
    /// is not touched.
    pub open spec fn reversed(self) -> AppView {
        AppView { sort_asc: !self.sort_asc, ..self }
    }

    /// The list sorted by `criteria`: ascending where the field is new,
    /// in the other direction where the list was sorted by it already.
    pub open spec fn sorted_by(self, criteria: SortCriteria) -> AppView {
        if self.sort_by == criteria {
            self.reversed().sorted()
        } else {
            AppView { sort_by: criteria, sort_asc: true, ..self }.sorted()
        }
    }

    /// The list with the selection one task further, the first task
    /// after the last; with no selection, or an empty list, the
    /// selection is 0.
    pub open spec fn after_next(self) -> AppView {
        AppView {
            selected: Some(
                match self.selected {
                    Some(i) if i + 1 < self.todos.len() => (i + 1) as usize,
                    _ => 0,
                },
            ),
            ..self
        }
    }

    /// The list with the selection one task back, the last task before
    /// the first and for a selection behind the list; with no selection,
    /// or an empty list, the selection is 0.
    pub open spec fn after_previous(self) -> AppView {
        AppView {
            selected: Some(
                match self.selected {
                    Some(i) if 0 < i < self.todos.len() => (i - 1) as usize,
                    Some(_) if self.todos.len() > 0 => (self.todos.len() - 1) as usize,
                    _ => 0,
                },
            ),
            ..self
        }
    }

    /// The list after the creation of a task began: nothing is selected,
    /// the selection is remembered, the session is fresh. While a task is
    /// edited nothing changes.
    pub open spec fn creating(self) -> AppView {
        if self.mode == Mode::Normal {
            AppView {
                mode: Mode::Editing,
                last_selected: self.selected,
                selected: None,
                editing: EditingView {
                    text: Seq::empty(),
                    priority: Some(Priority::Medium),
                    selected_field: Some(SelectableField::Text),
                },
                ..self
            }
        } else {
            self
        }
    }

    /// Whether a task is selected that can be edited.
    pub open spec fn can_edit(self) -> bool {
        self.mode == Mode::Normal && self.selected.is_some() && self.selected.unwrap()
            < self.todos.len()
    }

    /// The list after the editing of the selected task began: the
    /// session holds its text and priority. Without a selected task, or
    /// while a task is edited, nothing changes.
    pub open spec fn editing_selected(self) -> AppView {
        if self.can_edit() {
            let todo = self.todos[self.selected.unwrap() as int];
            AppView {
                mode: Mode::Editing,
                editing: EditingView {
                    text: todo.text@,
                    priority: todo.priority,
                    selected_field: Some(SelectableField::Text),
                },
                ..self
            }
        } else {
            self
        }
    }

    /// The list after editing was given up: the session is forgotten,
    /// and the selection is the one from before the creation of a task
    /// began. Outside editing nothing changes.
    pub open spec fn cancelled(self) -> AppView {
        if self.mode == Mode::Editing {
            AppView {
                mode: Mode::Normal,
                editing: self.editing.cleared(),
                selected: if self.selected.is_none() {
                    self.last_selected
                } else {
                    self.selected
                },
                ..self
            }
        } else {
            self
        }
    }

    /// Whether the session can be committed: a task is edited and its
    /// text is not empty.
    pub open spec fn can_commit(self) -> bool {
        self.mode == Mode::Editing && self.editing.text.len() > 0
    }

    /// The number of statements that a commit hands to the store: none
    /// where the commit is rejected or the selection lies outside the
    /// list, else one.
    pub open spec fn commit_writes(self) -> nat {
        if !self.can_commit() {
            0
        } else {
            match self.selected {
                Some(index) if index >= self.todos.len() => 0,
                _ => 1,
            }
        }
    }

    /// The priority that is committed: `Medium` where none is chosen.
    pub open spec fn committed_priority(self) -> Priority {
        match self.editing.priority {
            Some(p) => p,
            None => Priority::Medium,
        }
    }

    /// The list after a commit was carried out: the session is
    /// forgotten, and after the creation of a task the selection is the
    /// one from before it, or the first task.
    pub open spec fn closed(self, created: bool) -> AppView {
        AppView {
            mode: Mode::Normal,
            editing: self.editing.cleared(),
            selected: if created {
                Some(
                    match self.last_selected {
                        Some(i) => i,
                        None => 0,
                    },
                )
            } else {
                self.selected
            },
            ..self
        }
    }
}

impl View for App {
    type V = AppView;

    open spec fn view(&self) -> AppView {
        AppView {
            todos: self.todos@,
            mode: self.mode,
            selected: self.selected,
            editing: self.editing_state@,
            sort_by: self.sort_by,
            sort_asc: self.sort_asc,
            show_help: self.show_help,
            error_message: match self.error_message {
                Some(lines) => Some(texts(lines@)),
                None => None,
            },
            error_shown_at: self.error_shown_at,
            last_selected: self.last_selected,
        }
    }
}

/// The list as it is after loading `todos`: nothing is edited, the first
/// task is selected, the sort field is the priority, ascending, and no
/// help and no message is shown.
pub open spec fn initial_view(todos: Seq<Todo>) -> AppView {
    AppView {
        todos: todos,
        mode: Mode::Normal,
        selected: Some(0usize),
        editing: EditingView { text: Seq::empty(), priority: None, selected_field: None },
        sort_by: SortCriteria::Priority,
        sort_asc: true,
        show_help: false,
        error_message: None,
        error_shown_at: None,
        last_selected: None,
    }
}

/// What a change of the list returns for the outcome that the store
/// gave: success, or the failure of the store.
pub open spec fn verdict<T>(outcome: Result<T, DatabaseError>) -> Result<(), DatabaseError> {
    match outcome {
        Ok(_) => Ok(()),
        Err(e) => Err(e),
    }
}

/// What a commit returns for the outcome that the store gave: `true`,
/// or the failure of the store.
pub open spec fn committed<T>(outcome: Result<T, DatabaseError>) -> Result<bool, DatabaseError> {
    match outcome {
        Ok(_) => Ok(true),
        Err(e) => Err(e),
    }
}

/// What clearing returns: the first failure, or success.
pub open spec fn clear_verdict(outcomes: Seq<Result<(), DatabaseError>>) -> Result<
    (),
    DatabaseError,
> {
    match first_error(outcomes) {
        Some(e) => Err(e),
        None => Ok(()),
    }
}

/// The message for a failure: what was tried, then the text of the error.
fn failure_text(context: &str, error: &DatabaseError) -> (message: String)
    ensures
        message@ == context@ + error.spec_message(),
{
    let detail = error.message();
    String::from_str(context).concat(detail.as_str())
}

/// A selection for a list of `len` tasks.
fn clamped(selected: Option<usize>, len: usize) -> (clamped: Option<usize>)
    ensures
        clamped == clamp_selection(selected, len as nat),
{
    if len == 0 {
        None
    } else {
        match selected {
            Some(i) => if i >= len {
                Some(len - 1)
            } else {
                selected
            },
            None => None,
        }
    }
}

impl App {
    /// The list over the store `db`, as it is after loading `todos`.
    pub fn from_loaded(db: DatabaseHandler, todos: Vec<Todo>) -> (app: App)
        ensures
            app@ == initial_view(todos@),
            app.db == db,
    {
        App {
            todos,
            mode: Mode::Normal,
            selected: Some(0),
            editing_state: EditingState::idle(),
            sort_by: SortCriteria::Priority,
            sort_asc: true,
            show_help: false,
            error_message: None,
            error_shown_at: None,
            last_selected: None,
            db,
        }
    }

    /// Opens the store at `db_path` and loads the tasks that are not
    /// deleted. Whatever the store answered, a list that is returned is
    /// the initial one over the tasks of some table.
    pub fn new(db_path: &str) -> (made: Result<App, DatabaseError>)
        ensures
            made matches Ok(app) ==> exists|rows: Seq<crate::store::StoredRow>|
                app@ == initial_view(#[trigger] crate::store::spec_active_todos(rows)),
            made matches Ok(app) ==> app.db.writes() == 0,
    {
        match DatabaseHandler::new(db_path) {
            Ok(db) => match db.load_todos() {
                Ok(todos) => Ok(App::from_loaded(db, todos)),
                Err(e) => Err(e),
            },
            Err(e) => Err(e),
        }
    }

    /// The lines of help for the current mode.
    pub fn get_help_text(&self) -> (lines: Vec<String>)
        ensures
            texts(lines@) == help_lines(self.mode),
    {
        let lines = match self.mode {
            Mode::Normal => vec![
                String::from_str("Normal Mode Commands:"),
                String::from_str("n - new todo"),
                String::from_str("e - edit selected todo"),
                String::from_str("d - delete selected todo"),
                String::from_str("c - clear completed todos"),
                String::from_str("h - toggle help menu"),
                String::from_str("space - toggle todo completion"),
                String::from_str("k/j - navigate todos"),
                String::from_str("q - quit application"),
            ],
            Mode::Editing => vec![
                String::from_str("Editing Mode Commands:"),
                String::from_str("type to enter todo text"),
                String::from_str("tab - edit next field"),
                String::from_str("enter - save todo"),
                String::from_str("esc - cancel editing"),
            ],
        };
        lines
    }

    /// Shows or hides the help.
    pub fn toggle_help(&mut self)
        ensures
            final(self)@ == (AppView { show_help: !old(self)@.show_help, ..old(self)@ }),
            final(self).db == old(self).db,
    {
        self.show_help = !self.show_help;
    }

    /// Shows `message`, split into its lines, as set at the time `now`.
    pub fn show_error(&mut self, message: &str, now: i64)
        ensures
            final(self)@ == old(self)@.notified(message@, now),
            final(self).db == old(self).db,
    {
        self.error_message = Some(split_lines(message));
        self.error_shown_at = Some(now);
    }

    /// Shows `message`, split into its lines, as set at the time of the
    /// call.
    pub fn set_error(&mut self, message: String)
        ensures
            exists|now: i64| final(self)@ == #[trigger] old(self)@.notified(message@, now),
            final(self).db == old(self).db,
    {
        let now = current_time();
        self.show_error(message.as_str(), now);
    }

    /// Takes the message away where, at the time `now`, it has been
    /// shown for more than `ERROR_DURATION`.
    pub fn expire_error(&mut self, now: i64)
        ensures
            final(self)@ == old(self)@.expired(now),
            final(self).db == old(self).db,
    {
        let expired = match self.error_shown_at {
            Some(at) => (now as i128) - (at as i128) > (ERROR_DURATION as i128),
            None => false,
        };
        if expired {
            self.error_message = None;
            self.error_shown_at = None;
        }
    }

    /// Takes the message away where it has been shown for more than
    /// `ERROR_DURATION` at the time of the call.
    pub fn check_error_timeout(&mut self)
        ensures
            exists|now: i64| final(self)@ == #[trigger] old(self)@.expired(now),
            final(self).db == old(self).db,
    {
        let now = current_time();
        self.expire_error(now);
    }

    /// Applies the answer of the store to the insertion of `todo`: on
    /// success the task is appended under the id that the store gave and
    /// the list is sorted again; on failure the message is set at `now`
    /// and the list stays as it is.
    pub fn finish_add(&mut self, todo: Todo, outcome: Result<i64, DatabaseError>, now: i64) -> (done:
        Result<(), DatabaseError>)
        ensures
            final(self)@ == old(self)@.after_add(todo, outcome, now),
            done == verdict(outcome),
            final(self).db == old(self).db,
    {
        match outcome {
            Ok(id) => {
                let mut stored = todo;
                stored.id = id;
                self.todos.push(stored);
                self.sort_todos();
                Ok(())
            },
            Err(e) => {
                let message = failure_text("Failed to add todo: ", &e);
                self.show_error(message.as_str(), now);
                Err(e)
            },
        }
    }

    /// Adds a task with `text` and `priority`, created at the time of
    /// the call: it is inserted into the store, and whatever the store
    /// answers is applied as `finish_add` does.
    pub fn add_todo(&mut self, text: String, priority: Priority) -> (done: Result<
        (),
        DatabaseError,
    >)
        ensures
            exists|now: i64, outcome: Result<i64, DatabaseError>|
                final(self)@ == #[trigger] old(self)@.after_add(
                    new_todo(text, priority, now),
                    outcome,
                    now,
                ) && done == verdict(outcome),
            final(self).db.writes() == old(self).db.writes() + 1,
    {
        let now = current_time();
        let mut todo = Todo::created(text, now);
        todo.priority = Some(priority);
        let outcome = self.db.insert_todo(&todo);
        let done = self.finish_add(todo, outcome, now);
        proof {
            assert(self@ == old(self)@.after_add(new_todo(text, priority, now), outcome, now)
                && done == verdict(outcome));
        }
        done
    }

    /// Applies the answer of the store to the update of the task at
    /// `index` to `candidate`.
    fn finish_replace(
        &mut self,
        index: usize,
        candidate: Todo,
        outcome: Result<(), DatabaseError>,
        context: &str,
        now: i64,
    ) -> (done: Result<(), DatabaseError>)
        requires
            index < old(self).todos@.len(),
        ensures
            final(self)@ == old(self)@.after_replace(
                index as int,
                candidate,
                outcome,
                context@,
                now,
            ),
            done == verdict(outcome),
            final(self).db == old(self).db,
    {
        match outcome {
            Ok(()) => {
                self.todos.set(index, candidate);
                Ok(())
            },
            Err(e) => {
                let message = failure_text(context, &e);
                self.show_error(message.as_str(), now);
                Err(e)
            },
        }
    }

    /// Applies the answer of the store to toggling the task at `index`
    /// at the time `now`: on success the task is completed at `now`, or
    /// open again; on failure the message is set and the list stays as
    /// it is. With `index` outside the list nothing happens.
    pub fn finish_toggle(&mut self, index: usize, now: i64, outcome: Result<(), DatabaseError>) -> (done:
        Result<(), DatabaseError>)
        ensures
            final(self)@ == old(self)@.after_toggle(index as int, now, outcome),
            done == if index < old(self).todos@.len() {
                verdict(outcome)
            } else {
                Ok(())
            },
            final(self).db == old(self).db,
    {
        if index < self.todos.len() {
            let candidate = self.todos[index].toggled(now);
            self.finish_replace(index, candidate, outcome, "Failed to toggle todo: ", now)
        } else {
            Ok(())
        }
    }

    /// Toggles the task at `index` at the time of the call: the change
    /// is written to the store, and whatever the store answers is applied
    /// as `finish_toggle` does. With `index` outside the list nothing
    /// happens.
    pub fn toggle_todo(&mut self, index: usize) -> (done: Result<(), DatabaseError>)
        ensures
            exists|now: i64, outcome: Result<(), DatabaseError>|
                final(self)@ == #[trigger] old(self)@.after_toggle(index as int, now, outcome)
                    && done == if index < old(self).todos@.len() {
                    verdict(outcome)
                } else {
                    Ok(())
                },
            final(self).db.writes() == old(self).db.writes() + if index < old(self).todos@.len() {
                1nat
            } else {
                0nat
            },
    {
        if index < self.todos.len() {
            let now = current_time();
            let candidate = self.todos[index].toggled(now);
            let outcome = self.db.update_todo(&candidate);
            let done = self.finish_replace(
                index,
                candidate,
                outcome,
                "Failed to toggle todo: ",
                now,
            );
            proof {
                assert(self@ == old(self)@.after_toggle(index as int, now, outcome));
            }
            done
        } else {
            proof {
                assert(self@ == self@.after_toggle(index as int, 0, Ok(())));
            }
            Ok(())
        }
    }

    /// Applies the answer of the store to giving the task at `index`
    /// another text and priority: on success the task carries them; on
    /// failure the message is set at `now` and the list stays as it is.
    /// With `index` outside the list nothing happens.
    pub fn finish_update(
        &mut self,
        index: usize,
        text: String,
        priority: Priority,
        outcome: Result<(), DatabaseError>,
        now: i64,
    ) -> (done: Result<(), DatabaseError>)
        ensures
            final(self)@ == old(self)@.after_update(index as int, text, priority, outcome, now),
            done == if index < old(self).todos@.len() {
                verdict(outcome)
            } else {
                Ok(())
            },
            final(self).db == old(self).db,
    {
        if index < self.todos.len() {
            let candidate = self.todos[index].revised(text, priority);
            self.finish_replace(index, candidate, outcome, "Failed to update todo: ", now)
        } else {
            Ok(())
        }
    }

    /// Gives the task at `index` another text and priority: the change
    /// is written to the store, and whatever the store answers is applied
    /// as `finish_update` does. With `index` outside the list nothing
    /// happens.
    pub fn update_todo(&mut self, index: usize, text: String, priority: Priority) -> (done: Result<
        (),
        DatabaseError,
    >)
        ensures
            exists|now: i64, outcome: Result<(), DatabaseError>|
                final(self)@ == #[trigger] old(self)@.after_update(
                    index as int,
                    text,
                    priority,
                    outcome,
                    now,
                ) && done == if index < old(self).todos@.len() {
                    verdict(outcome)
                } else {
                    Ok(())
                },
            final(self).db.writes() == old(self).db.writes() + if index < old(self).todos@.len() {
                1nat
            } else {
                0nat
            },
    {
        if index < self.todos.len() {
            let now = current_time();
            let candidate = self.todos[index].revised(text, priority);
            let outcome = self.db.update_todo(&candidate);
            let done = self.finish_replace(
                index,
                candidate,
                outcome,
                "Failed to update todo: ",
                now,
            );
            proof {
                assert(self@ == old(self)@.after_update(
                    index as int,
                    text,
                    priority,
                    outcome,
                    now,
                ));
            }
            done
        } else {
            proof {
                assert(self@ == self@.after_update(index as int, text, priority, Ok(()), 0));
            }
            Ok(())
        }
    }

    /// Applies the answer of the store to the deletion of the task at
    /// `index`: on success the task leaves the list and the selection is
    /// clamped; on failure the message is set at `now` and the list stays
    /// as it is. With `index` outside the list nothing happens.
    pub fn finish_delete(&mut self, index: usize, outcome: Result<(), DatabaseError>, now: i64) -> (done:
        Result<(), DatabaseError>)
        ensures
            final(self)@ == old(self)@.after_delete(index as int, outcome, now),
            done == if index < old(self).todos@.len() {
                verdict(outcome)
            } else {
                Ok(())
            },
            final(self).db == old(self).db,
    {
        if index < self.todos.len() {
            match outcome {
                Ok(()) => {
                    let _ = self.todos.remove(index);
                    self.selected = clamped(self.selected, self.todos.len());
                    Ok(())
                },
                Err(e) => {
                    let message = failure_text("Failed to delete todo: ", &e);
                    self.show_error(message.as_str(), now);
                    Err(e)
                },
            }
        } else {
            Ok(())
        }
    }

    /// Deletes the task at `index`: its row is marked as deleted in the
    /// store, and whatever the store answers is applied as
    /// `finish_delete` does. With `index` outside the list nothing
    /// happens.
    pub fn delete_todo(&mut self, index: usize) -> (done: Result<(), DatabaseError>)
        ensures
            exists|now: i64, outcome: Result<(), DatabaseError>|
                final(self)@ == #[trigger] old(self)@.after_delete(index as int, outcome, now)
                    && done == if index < old(self).todos@.len() {
                    verdict(outcome)
                } else {
                    Ok(())
                },
            final(self).db.writes() == old(self).db.writes() + if index < old(self).todos@.len() {
                1nat
            } else {
                0nat
            },
    {
        if index < self.todos.len() {
            let now = current_time();
            let id = self.todos[index].id;
            let outcome = self.db.delete_todo(id);
            self.finish_delete(index, outcome, now)
        } else {
            proof {
                assert(self@ == self@.after_delete(index as int, Ok(()), 0));
            }
            Ok(())
        }
    }

    /// Applies the answers of the store to the deletion of the completed
    /// tasks, one answer for each in the order of the list: the tasks
    /// whose deletion succeeded leave the list, the selection is clamped,
    /// and the first failure, if any, is shown as set at `now` and
    /// returned.
    pub fn finish_clear(&mut self, outcomes: Vec<Result<(), DatabaseError>>, now: i64) -> (done:
        Result<(), DatabaseError>)
        ensures
            final(self)@ == old(self)@.after_clear(outcomes@, now),
            done == clear_verdict(outcomes@),
            final(self).db == old(self).db,
    {
        let ghost given = self.todos@;
        let ghost results = outcomes@;
        let mut outcomes = outcomes;
        let mut rest: Vec<Todo> = Vec::new();
        std::mem::swap(&mut self.todos, &mut rest);
        let mut k: usize = 0;
        proof {
            assert(results.skip(0) =~= results);
        }
        while rest.len() > 0
            invariant
                k <= outcomes.len(),
                outcomes@ == results,
                self.todos@ + kept_after_clear(rest@, results.skip(k as int)) == kept_after_clear(
                    given,
                    results,
                ),
                self@ == (AppView { todos: self.todos@, ..old(self)@ }),
                self.db == old(self).db,
            decreases rest.len(),
        {
            let t = rest.remove(0);
            proof {
                if k < results.len() {
                    assert(results.skip(k as int).skip(1) =~= results.skip(k + 1));
                }
            }
            if !t.completed {
                self.todos.push(t);
            } else if k < outcomes.len() {
                if !outcomes[k].is_ok() {
                    self.todos.push(t);
                }
                k += 1;
            } else {
                self.todos.push(t);
            }
        }
        let mut j: usize = 0;
        while j < outcomes.len() && outcomes[j].is_ok()
            invariant
                j <= outcomes.len(),
                outcomes@ == results,
                first_error(results) == first_error(results.skip(j as int)),
            decreases outcomes.len() - j,
        {
            proof {
                assert(results.skip(j as int).skip(1) =~= results.skip(j + 1));
            }
            j += 1;
        }
        self.selected = clamped(self.selected, self.todos.len());
        if j < outcomes.len() {
            let failed = outcomes.remove(j);
            match failed {
                Err(e) => {
                    let message = failure_text("Failed to clear completed todos: ", &e);
                    self.show_error(message.as_str(), now);
                    Err(e)
                },
                Ok(_) => Ok(()),
            }
        } else {
            Ok(())
        }
    }

    /// Deletes every completed task: each is marked as deleted in the
    /// store by a call of its own, also after one of them failed, and
    /// the answers are applied as `finish_clear` does.
    pub fn clear_completed(&mut self) -> (done: Result<(), DatabaseError>)
        ensures
            exists|now: i64, outcomes: Seq<Result<(), DatabaseError>>|
                outcomes.len() == completed_count(old(self)@.todos) && final(self)@
                    == #[trigger] old(self)@.after_clear(outcomes, now) && done == clear_verdict(
                    outcomes,
                ),
            final(self).db.writes() == old(self).db.writes() + completed_count(old(self)@.todos),
    {
        let now = current_time();
        let mut outcomes: Vec<Result<(), DatabaseError>> = Vec::new();
        let mut i: usize = 0;
        while i < self.todos.len()
            invariant
                i <= self.todos.len(),
                self@ == old(self)@,
                outcomes@.len() == completed_count(self.todos@.take(i as int)),
                self.db.writes() == old(self).db.writes() + outcomes@.len(),
            decreases self.todos.len() - i,
        {
            proof {
                assert(self.todos@.take(i + 1).drop_last() =~= self.todos@.take(i as int));
            }
            if self.todos[i].completed {
                let id = self.todos[i].id;
                let outcome = self.db.delete_todo(id);
                outcomes.push(outcome);
            }
            i += 1;
        }
        proof {
            assert(self.todos@.take(i as int) =~= self.todos@);
        }
        self.finish_clear(outcomes, now)
    }

    /// Ends the session after a commit.
    fn close_session(&mut self, created: bool)
        ensures
            final(self)@ == old(self)@.closed(created),
            final(self).db == old(self).db,
    {
        self.editing_state.clear();
        if created {
            self.selected = Some(
                match self.last_selected {
                    Some(i) => i,
                    None => 0,
                },
            );
        }
        self.mode = Mode::Normal;
    }

    /// Commits the session. Without text, or outside editing, the commit
    /// is rejected: nothing changes, nothing is written, and `false` is
    /// returned. Otherwise the selected task is updated, or, where none
    /// is selected, a task is added, with the text of the session and
    /// its priority, `Medium` where none is chosen; then the session
    /// ends, whatever the store answered.
    pub fn commit_edit(&mut self) -> (done: Result<bool, DatabaseError>)
        ensures
            !old(self)@.can_commit() ==> final(self)@ == old(self)@ && done == Ok::<
                bool,
                DatabaseError,
            >(false),
            old(self)@.can_commit() ==> match old(self)@.selected {
                Some(index) => exists|text: String, now: i64, outcome: Result<(), DatabaseError>|
                    text@ == old(self)@.editing.text && final(self)@ == (#[trigger] old(
                        self,
                    )@.after_update(
                        index as int,
                        text,
                        old(self)@.committed_priority(),
                        outcome,
                        now,
                    )).closed(false) && done == if index < old(self)@.todos.len() {
                        committed(outcome)
                    } else {
                        Ok(true)
                    },
                None => exists|text: String, now: i64, outcome: Result<i64, DatabaseError>|
                    text@ == old(self)@.editing.text && final(self)@ == (#[trigger] old(
                        self,
                    )@.after_add(
                        new_todo(text, old(self)@.committed_priority(), now),
                        outcome,
                        now,
                    )).closed(true) && done == committed(outcome),
            },
            !old(self)@.can_commit() ==> final(self).db == old(self).db,
            final(self).db.writes() == old(self).db.writes() + old(self)@.commit_writes(),
    {
        if self.mode != Mode::Editing || !self.editing_state.has_text() {
            return Ok(false);
        }
        let text = self.editing_state.input_fields.text.clone();
        let priority = match self.editing_state.input_fields.priority {
            Some(p) => p,
            None => Priority::Medium,
        };
        let now = current_time();
        match self.selected {
            Some(index) => {
                if index < self.todos.len() {
                    let candidate = self.todos[index].revised(text, priority);
                    let outcome = self.db.update_todo(&candidate);
                    let stored = self.finish_replace(
                        index,
                        candidate,
                        outcome,
                        "Failed to update todo: ",
                        now,
                    );
                    self.close_session(false);
                    proof {
                        assert(self@ == old(self)@.after_update(
                            index as int,
                            text,
                            priority,
                            outcome,
                            now,
                        ).closed(false));
                    }
                    match stored {
                        Ok(_) => Ok(true),
                        Err(e) => Err(e),
                    }
                } else {
                    self.close_session(false);
                    proof {
                        assert(self@ == old(self)@.after_update(
                            index as int,
                            text,
                            priority,
                            Ok(()),
                            now,
                        ).closed(false));
                    }
                    Ok(true)
                }
            },
            None => {
                let mut todo = Todo::created(text, now);
                todo.priority = Some(priority);
                let outcome = self.db.insert_todo(&todo);
                let stored = self.finish_add(todo, outcome, now);
                self.close_session(true);
                proof {
                    assert(self@ == old(self)@.after_add(
                        new_todo(text, priority, now),
                        outcome,
                        now,
                    ).closed(true));
                }
                match stored {
                    Ok(_) => Ok(true),
                    Err(e) => Err(e),
                }
            },
        }
    }

    /// Puts the list into the order of its sort field and direction;
    /// tasks of equal key keep their order.
    pub fn sort_todos(&mut self)
        ensures
            final(self)@ == old(self)@.sorted(),
            final(self).db == old(self).db,
    {
        let mut items: Vec<Todo> = Vec::new();
        std::mem::swap(&mut self.todos, &mut items);
        self.todos = sort_stable(items, self.sort_by, self.sort_asc);
    }

    /// Sorts the list by `criteria`, ascending or descending, and keeps
    /// both as the order of the list.
    pub fn sort(&mut self, criteria: SortCriteria, ascending: bool)
        ensures
            final(self)@ == (AppView {
                sort_by: criteria,
                sort_asc: ascending,
                ..old(self)@
            }).sorted(),
            final(self).db == old(self).db,
    {
        self.sort_by = criteria;
        self.sort_asc = ascending;
        self.sort_todos();
    }

    /// Turns the sort direction round. The list is not sorted again.
    pub fn toggle_sort_direction(&mut self)
        ensures
            final(self)@ == old(self)@.reversed(),
            final(self).db == old(self).db,
    {
        self.sort_asc = !self.sort_asc;
    }

    /// Sorts by `criteria`: ascending where the field is new, in the
    /// other direction where the list was sorted by it already.
    pub fn set_sort_criteria(&mut self, criteria: SortCriteria)
        ensures
            final(self)@ == old(self)@.sorted_by(criteria),
            final(self).db == old(self).db,
    {
        if self.sort_by == criteria {
            self.toggle_sort_direction();
            self.sort_todos();
        } else {
            self.sort_by = criteria;
            self.sort_asc = true;
            self.sort_todos();
        }
    }

    /// Selects the next task, the first after the last. On an empty
    /// list the selection is 0.
    pub fn select_next(&mut self)
        ensures
            final(self)@ == old(self)@.after_next(),
            old(self)@.todos.len() == 0 ==> final(self)@.selected == Some(0usize),
            final(self).db == old(self).db,
    {
        let len = self.todos.len();
        let i: usize = match self.selected {
            Some(i) => if len > 0 && i < len - 1 {
                i + 1
            } else {
                0
            },
            None => 0,
        };
        self.selected = Some(i);
    }

    /// Selects the task before, the last before the first. On an empty
    /// list the selection is 0.
    pub fn select_previous(&mut self)
        ensures
            final(self)@ == old(self)@.after_previous(),
            old(self)@.todos.len() == 0 ==> final(self)@.selected == Some(0usize),
            final(self).db == old(self).db,
    {
        let len = self.todos.len();
        let i: usize = match self.selected {
            Some(i) => if 0 < i && i < len {
                i - 1
            } else if len > 0 {
                len - 1
            } else {
                0
            },
            None => 0,
        };
        self.selected = Some(i);
    }

    /// Begins the creation of a task.
    pub fn begin_create(&mut self)
        ensures
            final(self)@ == old(self)@.creating(),
            final(self).db == old(self).db,
    {
        if self.mode == Mode::Normal {
            self.editing_state = EditingState::for_new();
            self.last_selected = self.selected;
            self.selected = None;
            self.mode = Mode::Editing;
        }
    }

    /// Begins the editing of the selected task.
    pub fn begin_edit(&mut self)
        ensures
            final(self)@ == old(self)@.editing_selected(),
            final(self).db == old(self).db,
    {
        if self.mode == Mode::Normal {
            match self.selected {
                Some(i) => {
                    if i < self.todos.len() {
                        self.editing_state = EditingState::for_todo(&self.todos[i]);
                        self.mode = Mode::Editing;
                    }
                },
                None => {},
            }
        }
    }

    /// Gives up editing: nothing is written to the store.
    pub fn cancel_edit(&mut self)
        ensures
            final(self)@ == old(self)@.cancelled(),
            final(self).db == old(self).db,
    {
        if self.mode == Mode::Editing {
            self.editing_state.clear();
            if self.selected.is_none() {
                self.selected = self.last_selected;
            }
            self.mode = Mode::Normal;
        }
    }
}

} // verus!
