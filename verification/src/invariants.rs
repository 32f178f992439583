//! What holds of the list whatever is done with it: tasks carry a
//! completion time exactly when they are completed, the selection never
//! points behind a list that has shrunk, clearing removes what the store
//! deleted and nothing else, toggling twice undoes itself, sorting is
//! stable, and an empty list can be walked.

use vstd::prelude::*;
use crate::sorting::{
    lemma_sort_is_stable, lemma_sort_keeps_ties, lemma_sort_permutes, lemma_sort_twice,
    lemma_sorted_todo_was_there, sort_key, with_key,
};
use crate::state::{clamp_selection, completed_count, kept_after_clear, AppView};
use crate::store::DatabaseError;
use crate::todo::{Priority, Todo};

verus! {

/// Every task carries a completion time exactly when it is completed.
pub open spec fn all_consistent(todos: Seq<Todo>) -> bool {
    forall|i: int| 0 <= i < todos.len() ==> (#[trigger] todos[i]).is_consistent()
}

/// The selection is none or a task of a list of `len` tasks.
pub open spec fn is_valid_selection(selected: Option<usize>, len: nat) -> bool {
    match selected {
        Some(i) => i < len,
        None => true,
    }
}

/// The tasks of `todos` that are not completed, in their order.
pub open spec fn open_todos(todos: Seq<Todo>) -> Seq<Todo>
    decreases todos.len(),
{
    if todos.len() == 0 {
        Seq::empty()
    } else if todos[0].completed {
        open_todos(todos.skip(1))
    } else {
        seq![todos[0]] + open_todos(todos.skip(1))
    }
}

/// A clamped selection is valid, none exactly when the list is empty or
/// nothing was selected, and unchanged where it was valid for a list
/// that is not empty.
pub proof fn lemma_clamp_is_valid(selected: Option<usize>, len: nat)
    ensures
        is_valid_selection(clamp_selection(selected, len), len),
        clamp_selection(selected, len).is_none() <==> len == 0 || selected.is_none(),
        len > 0 && is_valid_selection(selected, len) ==> clamp_selection(selected, len)
            == selected,
        len > 0 && selected.is_some() && selected.unwrap() >= len ==> clamp_selection(
            selected,
            len,
        ) == Some((len - 1) as usize),
{
}

/// Every task that clearing keeps is a task of the list.
pub proof fn lemma_kept_todo_was_there(
    todos: Seq<Todo>,
    outcomes: Seq<Result<(), DatabaseError>>,
    k: int,
) -> (i: int)
    requires
        0 <= k < kept_after_clear(todos, outcomes).len(),
    ensures
        0 <= i < todos.len(),
        todos[i] == kept_after_clear(todos, outcomes)[k],
    decreases todos.len(),
{
    let rest = todos.skip(1);
    if !todos[0].completed {
        if k == 0 {
            0
        } else {
            1 + lemma_kept_todo_was_there(rest, outcomes, k - 1)
        }
    } else if outcomes.len() > 0 && outcomes[0].is_ok() {
        1 + lemma_kept_todo_was_there(rest, outcomes.skip(1), k)
    } else if outcomes.len() > 0 {
        if k == 0 {
            0
        } else {
            1 + lemma_kept_todo_was_there(rest, outcomes.skip(1), k - 1)
        }
    } else {
        if k == 0 {
            0
        } else {
            1 + lemma_kept_todo_was_there(rest, outcomes, k - 1)
        }
    }
}

/// Every change keeps the tasks consistent: where each task of the list
/// carried a completion time exactly when it was completed, each does
/// after a task of that kind was added, and after a toggle, an update, a
/// deletion or a clearing, whatever the store answered.
pub proof fn lemma_changes_keep_consistency(
    app: AppView,
    todo: Todo,
    index: int,
    text: String,
    priority: Priority,
    now: i64,
    stored: Result<i64, DatabaseError>,
    outcome: Result<(), DatabaseError>,
    outcomes: Seq<Result<(), DatabaseError>>,
)
    requires
        all_consistent(app.todos),
        todo.is_consistent(),
    ensures
        all_consistent(app.after_add(todo, stored, now).todos),
        all_consistent(app.after_toggle(index, now, outcome).todos),
        all_consistent(app.after_update(index, text, priority, outcome, now).todos),
        all_consistent(app.after_delete(index, outcome, now).todos),
        all_consistent(app.after_clear(outcomes, now).todos),
        all_consistent(app.sorted().todos),
{
    let added = app.after_add(todo, stored, now).todos;
    assert forall|k: int| 0 <= k < added.len() implies (#[trigger] added[k]).is_consistent() by {
        match stored {
            Ok(id) => {
                let grown = app.todos.push(Todo { id: id, ..todo });
                lemma_sorted_todo_was_there(grown, app.sort_by, app.sort_asc, k);
            },
            Err(_) => {},
        }
    }
    let sorted = app.sorted().todos;
    assert forall|k: int| 0 <= k < sorted.len() implies (#[trigger] sorted[k]).is_consistent() by {
        lemma_sorted_todo_was_there(app.todos, app.sort_by, app.sort_asc, k);
    }
    let cleared = app.after_clear(outcomes, now).todos;
    assert forall|k: int| 0 <= k < cleared.len() implies (#[trigger] cleared[k]).is_consistent() by {
        lemma_kept_todo_was_there(app.todos, outcomes, k);
    }
}

/// After a deletion or a clearing the selection is valid for the list
/// that is left, whatever it was before, where the store confirmed the
/// deletion; a clearing leaves it valid in any case.
pub proof fn lemma_selection_stays_valid(
    app: AppView,
    index: int,
    now: i64,
    outcomes: Seq<Result<(), DatabaseError>>,
)
    ensures
        0 <= index < app.todos.len() ==> is_valid_selection(
            app.after_delete(index, Ok(()), now).selected,
            app.after_delete(index, Ok(()), now).todos.len(),
        ),
        is_valid_selection(
            app.after_clear(outcomes, now).selected,
            app.after_clear(outcomes, now).todos.len(),
        ),
{
}

/// The completed tasks of a list are those of its first task and those
/// of the rest.
pub proof fn lemma_completed_count_front(todos: Seq<Todo>)
    requires
        todos.len() > 0,
    ensures
        completed_count(todos) == completed_count(todos.skip(1)) + if todos[0].completed {
            1nat
        } else {
            0nat
        },
    decreases todos.len(),
{
    if todos.len() == 1 {
        assert(completed_count(todos.drop_last()) == 0);
    } else {
        let front = todos.drop_last();
        lemma_completed_count_front(front);
        assert(front.skip(1) =~= todos.skip(1).drop_last());
    }
}

/// Where the store confirmed the deletion of every completed task,
/// clearing leaves exactly the tasks that are not completed, in their
/// order.
pub proof fn lemma_clear_confirmed(todos: Seq<Todo>, outcomes: Seq<Result<(), DatabaseError>>)
    requires
        outcomes.len() >= completed_count(todos),
        forall|j: int| 0 <= j < outcomes.len() ==> (#[trigger] outcomes[j]).is_ok(),
    ensures
        kept_after_clear(todos, outcomes) == open_todos(todos),
    decreases todos.len(),
{
    if todos.len() > 0 {
        lemma_completed_count_front(todos);
        if todos[0].completed {
            let left = outcomes.skip(1);
            lemma_clear_confirmed(todos.skip(1), left);
        } else {
            lemma_clear_confirmed(todos.skip(1), outcomes);
        }
    }
}

/// Where the store refused the deletion of every completed task,
/// clearing leaves the list as it is.
pub proof fn lemma_clear_refused(todos: Seq<Todo>, outcomes: Seq<Result<(), DatabaseError>>)
    requires
        forall|j: int| 0 <= j < outcomes.len() ==> (#[trigger] outcomes[j]).is_err(),
    ensures
        kept_after_clear(todos, outcomes) == todos,
    decreases todos.len(),
{
    if todos.len() > 0 {
        if todos[0].completed && outcomes.len() > 0 {
            lemma_clear_refused(todos.skip(1), outcomes.skip(1));
        } else {
            lemma_clear_refused(todos.skip(1), outcomes);
        }
    }
}

/// Toggling the same task twice, both times confirmed, restores an open
/// task exactly: the list is the one from before.
pub proof fn lemma_toggle_pair_restores(app: AppView, index: int, first: i64, second: i64)
    requires
        0 <= index < app.todos.len(),
        !app.todos[index].completed,
        app.todos[index].completed_at.is_none(),
    ensures
        app.after_toggle(index, first, Ok(())).after_toggle(index, second, Ok(())) == app,
{
    let once = app.after_toggle(index, first, Ok(()));
    let twice = once.after_toggle(index, second, Ok(()));
    assert(twice.todos =~= app.todos);
}

/// Toggling a completed task twice, both times confirmed, restores its
/// completion, and its time of completion where the second toggle
/// happens at that time; every other task and field is as before.
pub proof fn lemma_toggle_pair_completed(app: AppView, index: int, first: i64, second: i64)
    requires
        0 <= index < app.todos.len(),
        app.todos[index].completed,
    ensures
        app.after_toggle(index, first, Ok(())).after_toggle(index, second, Ok(())) == (AppView {
            todos: app.todos.update(
                index,
                Todo { completed_at: Some(second), ..app.todos[index] },
            ),
            ..app
        }),
{
    let once = app.after_toggle(index, first, Ok(()));
    let twice = once.after_toggle(index, second, Ok(()));
    assert(twice.todos =~= app.todos.update(
        index,
        Todo { completed_at: Some(second), ..app.todos[index] },
    ));
}

/// Sorting the list again by the same field and direction moves
/// nothing, and sorting keeps the tasks of every key in the order in
/// which they stood.
pub proof fn lemma_sorting_is_stable(app: AppView, key: int)
    ensures
        app.sorted().sorted() == app.sorted(),
        with_key(app.sorted().todos, app.sort_by, key) == with_key(app.todos, app.sort_by, key),
        app.sorted().todos.to_multiset() == app.todos.to_multiset(),
{
    lemma_sort_twice(app.todos, app.sort_by, app.sort_asc);
    lemma_sort_is_stable(app.todos, app.sort_by, app.sort_asc, key);
    lemma_sort_permutes(app.todos, app.sort_by, app.sort_asc);
}

/// Two tasks of equal key, the one at `i` before the one at `j`, stand
/// in that order after the list was sorted, and after it was sorted
/// once more.
pub proof fn lemma_sorting_keeps_ties(app: AppView, i: int, j: int) -> (places: (int, int))
    requires
        0 <= i < j < app.todos.len(),
        sort_key(app.todos[i], app.sort_by) == sort_key(app.todos[j], app.sort_by),
    ensures
        0 <= places.0 < places.1 < app.sorted().todos.len(),
        app.sorted().todos[places.0] == app.todos[i],
        app.sorted().todos[places.1] == app.todos[j],
        app.sorted().sorted().todos[places.0] == app.todos[i],
        app.sorted().sorted().todos[places.1] == app.todos[j],
{
    lemma_sort_twice(app.todos, app.sort_by, app.sort_asc);
    lemma_sort_keeps_ties(app.todos, app.sort_by, app.sort_asc, i, j)
}

/// On an empty list moving the selection, forward or backward and from
/// wherever it starts, selects 0 and changes nothing else.
pub proof fn lemma_empty_navigation(app: AppView)
    requires
        app.todos.len() == 0,
    ensures
        app.after_next() == (AppView { selected: Some(0usize), ..app }),
        app.after_previous() == (AppView { selected: Some(0usize), ..app }),
{
}

} // verus!
