//! The list and the table stay together: a change that the store has
//! confirmed makes of the list what the statement makes of the table, and
//! a change that failed leaves the list as it was.

use vstd::prelude::*;
use crate::sorting::lemma_sort_permutes;
use crate::state::{new_todo, AppView};
use crate::store::{live_todos, spec_active_todos, DatabaseError, StoredRow};
use crate::table::{
    has_unique_ids, is_new_id, lemma_insert_keeps_ids_unique, lemma_live_after_delete,
    lemma_live_after_update, lemma_live_ids_unique, lemma_load_mirrors,
    lemma_mirrored_todo_is_live, lemma_without_id_removes, lemma_writes_keep_ids, mirrors,
    rows_after_delete, rows_after_insert, rows_after_update, with_revision,
};
use crate::todo::{Priority, Todo};

verus! {

/// A confirmed insertion keeps list and table together: where the list
/// mirrored the table, the list after the addition mirrors the table
/// after the insertion. The task is one that is not completed, as every
/// task is that is added.
pub proof fn lemma_add_converges(app: AppView, rows: Seq<StoredRow>, todo: Todo, id: i64, now: i64)
    requires
        mirrors(app.todos, rows),
        todo.completed_at.is_none(),
    ensures
        mirrors(app.after_add(todo, Ok(id), now).todos, rows_after_insert(rows, todo, id)),
{
    broadcast use vstd::seq_lib::group_to_multiset_ensures;

    let stored = Todo { id: id, ..todo };
    lemma_sort_permutes(app.todos.push(stored), app.sort_by, app.sort_asc);
    let after = rows_after_insert(rows, todo, id);
    assert(after.drop_last() =~= rows);
}

/// A confirmed update keeps list and table together: where the list
/// mirrored a table with unique ids and `candidate` has the id and the
/// time of creation of the task at `index`, the list with `candidate` at
/// `index` mirrors the table after the update.
pub proof fn lemma_replace_converges(
    app: AppView,
    rows: Seq<StoredRow>,
    index: int,
    candidate: Todo,
    context: Seq<char>,
    now: i64,
    stamp: i64,
)
    requires
        mirrors(app.todos, rows),
        has_unique_ids(rows),
        0 <= index < app.todos.len(),
        candidate.id == app.todos[index].id,
        candidate.created_at == app.todos[index].created_at,
    ensures
        mirrors(
            app.after_replace(index, candidate, Ok(()), context, now).todos,
            rows_after_update(rows, candidate, stamp),
        ),
{
    broadcast use vstd::seq_lib::group_to_multiset_ensures;

    let live = live_todos(rows);
    let j = lemma_mirrored_todo_is_live(app.todos, rows, index);
    lemma_live_ids_unique(rows);
    lemma_live_after_update(rows, candidate, stamp);
    assert(with_revision(live, candidate) =~= live.update(j, candidate));
}

/// A confirmed toggle keeps list and table together.
pub proof fn lemma_toggle_converges(
    app: AppView,
    rows: Seq<StoredRow>,
    index: int,
    now: i64,
    stamp: i64,
)
    requires
        mirrors(app.todos, rows),
        has_unique_ids(rows),
        0 <= index < app.todos.len(),
    ensures
        mirrors(
            app.after_toggle(index, now, Ok(())).todos,
            rows_after_update(rows, app.todos[index].spec_toggled(now), stamp),
        ),
{
    lemma_replace_converges(
        app,
        rows,
        index,
        app.todos[index].spec_toggled(now),
        "Failed to toggle todo: "@,
        now,
        stamp,
    );
}

/// A confirmed change of text and priority keeps list and table
/// together.
pub proof fn lemma_update_converges(
    app: AppView,
    rows: Seq<StoredRow>,
    index: int,
    text: String,
    priority: Priority,
    now: i64,
    stamp: i64,
)
    requires
        mirrors(app.todos, rows),
        has_unique_ids(rows),
        0 <= index < app.todos.len(),
    ensures
        mirrors(
            app.after_update(index, text, priority, Ok(()), now).todos,
            rows_after_update(rows, app.todos[index].spec_revised(text, priority), stamp),
        ),
{
    lemma_replace_converges(
        app,
        rows,
        index,
        app.todos[index].spec_revised(text, priority),
        "Failed to update todo: "@,
        now,
        stamp,
    );
}

/// A confirmed deletion keeps list and table together: where the list
/// mirrored a table with unique ids, the list without the task at
/// `index` mirrors the table after the deletion of its id.
pub proof fn lemma_delete_converges(
    app: AppView,
    rows: Seq<StoredRow>,
    index: int,
    now: i64,
    stamp: i64,
)
    requires
        mirrors(app.todos, rows),
        has_unique_ids(rows),
        0 <= index < app.todos.len(),
    ensures
        mirrors(
            app.after_delete(index, Ok(()), now).todos,
            rows_after_delete(rows, app.todos[index].id, stamp),
        ),
{
    broadcast use vstd::seq_lib::group_to_multiset_ensures;

    let live = live_todos(rows);
    let id = app.todos[index].id;
    let j = lemma_mirrored_todo_is_live(app.todos, rows, index);
    lemma_live_ids_unique(rows);
    lemma_live_after_delete(rows, id, stamp);
    lemma_without_id_removes(live, id, j);
}

/// A change that the store refused leaves the tasks of the list as they
/// were, so that the list still mirrors the table that it mirrored.
pub proof fn lemma_failure_keeps_list(
    app: AppView,
    todo: Todo,
    index: int,
    text: String,
    priority: Priority,
    error: DatabaseError,
    now: i64,
)
    ensures
        app.after_add(todo, Err(error), now).todos == app.todos,
        app.after_toggle(index, now, Err(error)).todos == app.todos,
        app.after_update(index, text, priority, Err(error), now).todos == app.todos,
        app.after_delete(index, Err(error), now).todos == app.todos,
        app.after_delete(index, Err(error), now).selected == app.selected,
{
}

/// One change of the list together with what the store answered.
/// `now` is the time of the change, `stamp` the time that the store put
/// on the row.
pub enum Change {
    Add { text: String, priority: Priority, outcome: Result<i64, DatabaseError>, now: i64 },
    Toggle { index: int, outcome: Result<(), DatabaseError>, now: i64, stamp: i64 },
    Update {
        index: int,
        text: String,
        priority: Priority,
        outcome: Result<(), DatabaseError>,
        now: i64,
        stamp: i64,
    },
    Delete { index: int, outcome: Result<(), DatabaseError>, now: i64, stamp: i64 },
}

/// The list beside the table that its store holds.
pub struct World {
    pub app: AppView,
    pub rows: Seq<StoredRow>,
}

impl World {
    /// The list mirrors the table, and the ids of the table are unique.
    pub open spec fn is_convergent(self) -> bool {
        mirrors(self.app.todos, self.rows) && has_unique_ids(self.rows)
    }

    /// Whether the store may answer so: an insertion is confirmed only
    /// under an id that no row has.
    pub open spec fn admits(self, change: Change) -> bool {
        match change {
            Change::Add { outcome: Ok(id), .. } => is_new_id(self.rows, id),
            _ => true,
        }
    }

    /// List and table after one change: the list as the change leaves it,
    /// the table as the statement leaves it where the store confirmed it
    /// and the index lay in the list, else as it was.
    pub open spec fn step(self, change: Change) -> World {
        let app = self.app;
        let in_list = |index: int| 0 <= index < app.todos.len();
        match change {
            Change::Add { text, priority, outcome, now } => World {
                app: app.after_add(new_todo(text, priority, now), outcome, now),
                rows: match outcome {
                    Ok(id) => rows_after_insert(self.rows, new_todo(text, priority, now), id),
                    Err(_) => self.rows,
                },
            },
            Change::Toggle { index, outcome, now, stamp } => World {
                app: app.after_toggle(index, now, outcome),
                rows: if in_list(index) && outcome.is_ok() {
                    rows_after_update(self.rows, app.todos[index].spec_toggled(now), stamp)
                } else {
                    self.rows
                },
            },
            Change::Update { index, text, priority, outcome, now, stamp } => World {
                app: app.after_update(index, text, priority, outcome, now),
                rows: if in_list(index) && outcome.is_ok() {
                    rows_after_update(
                        self.rows,
                        app.todos[index].spec_revised(text, priority),
                        stamp,
                    )
                } else {
                    self.rows
                },
            },
            Change::Delete { index, outcome, now, stamp } => World {
                app: app.after_delete(index, outcome, now),
                rows: if in_list(index) && outcome.is_ok() {
                    rows_after_delete(self.rows, app.todos[index].id, stamp)
                } else {
                    self.rows
                },
            },
        }
    }

    /// List and table after the changes, one after the other.
    pub open spec fn run(self, changes: Seq<Change>) -> World
        decreases changes.len(),
    {
        if changes.len() == 0 {
            self
        } else {
            self.run(changes.drop_last()).step(changes.last())
        }
    }

    /// Whether the store may answer each change as it did, each seen from
    /// where the changes before it have led.
    pub open spec fn admits_all(self, changes: Seq<Change>) -> bool
        decreases changes.len(),
    {
        changes.len() == 0 || (self.admits_all(changes.drop_last()) && self.run(
            changes.drop_last(),
        ).admits(changes.last()))
    }
}

/// One change keeps list and table together, whatever the store
/// answered.
pub proof fn lemma_step_converges(world: World, change: Change)
    requires
        world.is_convergent(),
        world.admits(change),
    ensures
        world.step(change).is_convergent(),
{
    let app = world.app;
    let rows = world.rows;
    match change {
        Change::Add { text, priority, outcome, now } => {
            match outcome {
                Ok(id) => {
                    lemma_add_converges(app, rows, new_todo(text, priority, now), id, now);
                    lemma_insert_keeps_ids_unique(rows, new_todo(text, priority, now), id);
                },
                Err(_) => {},
            }
        },
        Change::Toggle { index, outcome, now, stamp } => {
            if 0 <= index < app.todos.len() && outcome.is_ok() {
                lemma_toggle_converges(app, rows, index, now, stamp);
                lemma_writes_keep_ids(rows, app.todos[index].spec_toggled(now), 0, stamp);
            }
        },
        Change::Update { index, text, priority, outcome, now, stamp } => {
            if 0 <= index < app.todos.len() && outcome.is_ok() {
                lemma_update_converges(app, rows, index, text, priority, now, stamp);
                lemma_writes_keep_ids(
                    rows,
                    app.todos[index].spec_revised(text, priority),
                    0,
                    stamp,
                );
            }
        },
        Change::Delete { index, outcome, now, stamp } => {
            if 0 <= index < app.todos.len() && outcome.is_ok() {
                lemma_delete_converges(app, rows, index, now, stamp);
                lemma_writes_keep_ids(rows, app.todos[index], app.todos[index].id, stamp);
            }
        },
    }
}

/// Any run of additions, toggles, updates and deletions keeps list and
/// table together: where the list mirrored the table at the start, it
/// mirrors the table after every change, so that it holds the tasks that
/// loading the table would give, each as often.
pub proof fn lemma_run_converges(world: World, changes: Seq<Change>)
    requires
        world.is_convergent(),
        world.admits_all(changes),
    ensures
        world.run(changes).is_convergent(),
        world.run(changes).app.todos.to_multiset() == spec_active_todos(
            world.run(changes).rows,
        ).to_multiset(),
    decreases changes.len(),
{
    if changes.len() > 0 {
        lemma_run_converges(world, changes.drop_last());
        lemma_step_converges(world.run(changes.drop_last()), changes.last());
    }
    lemma_load_mirrors(world.run(changes).rows);
}

} // verus!
