//! The table as a value: what each statement of the store is written to
//! make of it, and what follows for the tasks that are loaded from it.
//! The database itself is not reasoned about: these are the rules that
//! its statements express.

use vstd::prelude::*;
use crate::sorting::{
    in_order, is_ordered, lemma_insert_position, lemma_sort_is_ordered, lemma_sort_permutes,
    lemma_sorted_todo_was_there, stable_sort, SortCriteria,
};
use crate::store::{
    live_todos, spec_active_todos, spec_priority_to_int, spec_todo_of_row, StoredRow,
};
use crate::todo::{priority_rank, Todo};

verus! {

/// The row that inserting `todo` writes under the id `id`: without times
/// of modification, completion and deletion.
pub open spec fn inserted_row(todo: Todo, id: i64) -> StoredRow {
    StoredRow {
        id: id,
        text: todo.text,
        completed: todo.completed,
        created_at: todo.created_at,
        modified_at: None,
        completed_at: None,
        deleted_at: None,
        priority: Some(spec_priority_to_int(todo.priority)),
    }
}

/// The table after `todo` was inserted under the id `id`.
pub open spec fn rows_after_insert(rows: Seq<StoredRow>, todo: Todo, id: i64) -> Seq<StoredRow> {
    rows.push(inserted_row(todo, id))
}

/// A row after the update with `todo` at the time `now`: changed only
/// where it has the id of `todo` and is not deleted.
pub open spec fn updated_row(row: StoredRow, todo: Todo, now: i64) -> StoredRow {
    if row.id == todo.id && row.deleted_at.is_none() {
        StoredRow {
            text: todo.text,
            completed: todo.completed,
            modified_at: Some(now),
            completed_at: todo.completed_at,
            priority: Some(spec_priority_to_int(todo.priority)),
            ..row
        }
    } else {
        row
    }
}

/// The table after the update with `todo` at the time `now`.
pub open spec fn rows_after_update(rows: Seq<StoredRow>, todo: Todo, now: i64) -> Seq<StoredRow> {
    Seq::new(rows.len(), |i: int| updated_row(rows[i], todo, now))
}

/// A row after the deletion of `id` at the time `now`: marked where it
/// has that id and was not deleted before.
pub open spec fn deleted_row(row: StoredRow, id: i64, now: i64) -> StoredRow {
    if row.id == id && row.deleted_at.is_none() {
        StoredRow { deleted_at: Some(now), ..row }
    } else {
        row
    }
}

/// The table after the deletion of `id` at the time `now`.
pub open spec fn rows_after_delete(rows: Seq<StoredRow>, id: i64, now: i64) -> Seq<StoredRow> {
    Seq::new(rows.len(), |i: int| deleted_row(rows[i], id, now))
}

/// No two rows have the same id.
pub open spec fn has_unique_ids(rows: Seq<StoredRow>) -> bool {
    forall|i: int, j: int| 0 <= i < j < rows.len() ==> rows[i].id != rows[j].id
}

/// No row has the id `id`.
pub open spec fn is_new_id(rows: Seq<StoredRow>, id: i64) -> bool {
    forall|i: int| 0 <= i < rows.len() ==> (#[trigger] rows[i]).id != id
}

/// The list holds the tasks of the rows that are not deleted, each as
/// often as the table does, in whatever order.
pub open spec fn mirrors(list: Seq<Todo>, rows: Seq<StoredRow>) -> bool {
    list.to_multiset() == live_todos(rows).to_multiset()
}

/// The tasks of `s` but those with the id `id`.
pub open spec fn without_id(s: Seq<Todo>, id: i64) -> Seq<Todo>
    decreases s.len(),
{
    if s.len() == 0 {
        Seq::empty()
    } else if s.last().id == id {
        without_id(s.drop_last(), id)
    } else {
        without_id(s.drop_last(), id).push(s.last())
    }
}

/// A task after the update with `todo`: changed, but for its id and its
/// time of creation, where it has the id of `todo`.
pub open spec fn revised_by(t: Todo, todo: Todo) -> Todo {
    if t.id == todo.id {
        Todo { id: t.id, created_at: t.created_at, ..todo }
    } else {
        t
    }
}

/// The tasks of `s` after the update with `todo`.
pub open spec fn with_revision(s: Seq<Todo>, todo: Todo) -> Seq<Todo> {
    Seq::new(s.len(), |i: int| revised_by(s[i], todo))
}

/// An insertion under an id that no row has keeps the ids of the table
/// unique.
pub proof fn lemma_insert_keeps_ids_unique(rows: Seq<StoredRow>, todo: Todo, id: i64)
    requires
        has_unique_ids(rows),
        is_new_id(rows, id),
    ensures
        has_unique_ids(rows_after_insert(rows, todo, id)),
{
}

/// An update and a deletion change no id and remove no row, so the ids
/// of the table stay unique.
pub proof fn lemma_writes_keep_ids(rows: Seq<StoredRow>, todo: Todo, id: i64, now: i64)
    ensures
        rows_after_update(rows, todo, now).len() == rows.len(),
        rows_after_delete(rows, id, now).len() == rows.len(),
        forall|i: int|
            0 <= i < rows.len() ==> (#[trigger] rows_after_update(rows, todo, now)[i]).id
                == rows[i].id,
        forall|i: int|
            0 <= i < rows.len() ==> (#[trigger] rows_after_delete(rows, id, now)[i]).id
                == rows[i].id,
        has_unique_ids(rows) ==> has_unique_ids(rows_after_update(rows, todo, now)),
        has_unique_ids(rows) ==> has_unique_ids(rows_after_delete(rows, id, now)),
{
    let updated = rows_after_update(rows, todo, now);
    let deleted = rows_after_delete(rows, id, now);
    if has_unique_ids(rows) {
        assert forall|i: int, j: int| 0 <= i < j < rows.len() implies updated[i].id
            != updated[j].id && deleted[i].id != deleted[j].id by {
        }
    }
}

/// A deleted row stays as it is: no insertion, update or deletion
/// touches it again, so it is never loaded again.
pub proof fn lemma_deleted_stays_deleted(
    rows: Seq<StoredRow>,
    i: int,
    todo: Todo,
    id: i64,
    now: i64,
)
    requires
        0 <= i < rows.len(),
        rows[i].deleted_at.is_some(),
    ensures
        rows_after_insert(rows, todo, id)[i] == rows[i],
        rows_after_update(rows, todo, now)[i] == rows[i],
        rows_after_delete(rows, id, now)[i] == rows[i],
{
}

/// Every task that is loaded is the task of a row that is not deleted.
pub proof fn lemma_live_todo_has_row(rows: Seq<StoredRow>, k: int) -> (i: int)
    requires
        0 <= k < live_todos(rows).len(),
    ensures
        0 <= i < rows.len(),
        rows[i].deleted_at.is_none(),
        live_todos(rows)[k] == spec_todo_of_row(rows[i]),
    decreases rows.len(),
{
    let front = rows.drop_last();
    if rows.last().deleted_at.is_none() && k == live_todos(front).len() {
        rows.len() - 1
    } else {
        lemma_live_todo_has_row(front, k)
    }
}

/// The tasks of a table with unique ids have unique ids.
pub proof fn lemma_live_ids_unique(rows: Seq<StoredRow>)
    requires
        has_unique_ids(rows),
    ensures
        forall|k: int, l: int|
            0 <= k < l < live_todos(rows).len() ==> live_todos(rows)[k].id != live_todos(
                rows,
            )[l].id,
    decreases rows.len(),
{
    if rows.len() > 0 {
        let front = rows.drop_last();
        lemma_live_ids_unique(front);
        let live = live_todos(rows);
        assert forall|k: int, l: int| 0 <= k < l < live.len() implies live[k].id
            != live[l].id by {
            if l >= live_todos(front).len() {
                lemma_live_todo_has_row(front, k);
            }
        }
    }
}

/// After a deletion the tasks that are loaded are those of before but
/// the ones of the deleted id.
pub proof fn lemma_live_after_delete(rows: Seq<StoredRow>, id: i64, now: i64)
    ensures
        live_todos(rows_after_delete(rows, id, now)) == without_id(live_todos(rows), id),
    decreases rows.len(),
{
    let after = rows_after_delete(rows, id, now);
    if rows.len() > 0 {
        let front = rows.drop_last();
        lemma_live_after_delete(front, id, now);
        assert(after.drop_last() =~= rows_after_delete(front, id, now));
        if rows.last().deleted_at.is_none() {
            let t = spec_todo_of_row(rows.last());
            assert(live_todos(front).push(t).drop_last() =~= live_todos(front));
        }
    }
}

/// After an update the tasks that are loaded are those of before, the
/// one of the updated id revised.
pub proof fn lemma_live_after_update(rows: Seq<StoredRow>, todo: Todo, now: i64)
    ensures
        live_todos(rows_after_update(rows, todo, now)) == with_revision(live_todos(rows), todo),
    decreases rows.len(),
{
    let after = rows_after_update(rows, todo, now);
    if rows.len() > 0 {
        let front = rows.drop_last();
        lemma_live_after_update(front, todo, now);
        assert(after.drop_last() =~= rows_after_update(front, todo, now));
    }
}

/// No task with the id `id` is left in `without_id`.
pub proof fn lemma_without_id_has_none(s: Seq<Todo>, id: i64)
    ensures
        forall|k: int| 0 <= k < without_id(s, id).len() ==> (#[trigger] without_id(s, id)[k]).id
            != id,
        without_id(s, id).len() <= s.len(),
    decreases s.len(),
{
    if s.len() > 0 {
        lemma_without_id_has_none(s.drop_last(), id);
    }
}

/// Where only the task at `j` has the id `id`, `without_id` removes
/// that one task.
pub proof fn lemma_without_id_removes(s: Seq<Todo>, id: i64, j: int)
    requires
        0 <= j < s.len(),
        forall|k: int| 0 <= k < s.len() ==> ((#[trigger] s[k]).id == id <==> k == j),
    ensures
        without_id(s, id) == s.remove(j),
    decreases s.len(),
{
    let front = s.drop_last();
    if j == s.len() - 1 {
        lemma_without_id_keeps(front, id);
    } else {
        lemma_without_id_removes(front, id, j);
    }
}

/// Where no task has the id `id`, `without_id` removes nothing.
pub proof fn lemma_without_id_keeps(s: Seq<Todo>, id: i64)
    requires
        forall|k: int| 0 <= k < s.len() ==> (#[trigger] s[k]).id != id,
    ensures
        without_id(s, id) == s,
    decreases s.len(),
{
    if s.len() > 0 {
        lemma_without_id_keeps(s.drop_last(), id);
    }
}

/// Whether `a` stands before `b` in a loaded list: its priority is
/// higher, or the priorities are equal and it was not created earlier.
/// An unset priority is the lowest.
pub open spec fn load_precedes(a: Todo, b: Todo) -> bool {
    priority_rank(a.priority) > priority_rank(b.priority) || (priority_rank(a.priority)
        == priority_rank(b.priority) && a.created_at >= b.created_at)
}

/// Every task of `s` stands before every later one as in a loaded list.
pub open spec fn is_load_ordered(s: Seq<Todo>) -> bool {
    forall|i: int, j: int| 0 <= i < j < s.len() ==> load_precedes(s[i], s[j])
}

/// Sorting by descending priority what is ordered by descending time of
/// creation gives the order of a loaded list.
pub proof fn lemma_priority_after_date(d: Seq<Todo>)
    requires
        is_ordered(d, SortCriteria::CreatedDate, false),
    ensures
        is_load_ordered(stable_sort(d, SortCriteria::Priority, false)),
    decreases d.len(),
{
    if d.len() > 0 {
        let front = d.drop_last();
        let t = d.last();
        lemma_priority_after_date(front);
        let r = stable_sort(front, SortCriteria::Priority, false);
        lemma_sort_is_ordered(front, SortCriteria::Priority, false);
        let p = lemma_insert_position(r, t, SortCriteria::Priority, false);
        let s = r.insert(p, t);
        assert forall|k: int| 0 <= k < r.len() implies (#[trigger] r[k]).created_at
            >= t.created_at by {
            let i = lemma_sorted_todo_was_there(front, SortCriteria::Priority, false, k);
            assert(in_order(d[i], d[d.len() - 1], SortCriteria::CreatedDate, false));
        }
        assert forall|i: int, j: int| 0 <= i < j < s.len() implies load_precedes(s[i], s[j]) by {
            if j == p && i < p - 1 {
                assert(in_order(r[i], r[p - 1], SortCriteria::Priority, false));
            }
        }
    }
}

/// What is loaded is ordered: the highest priority first, and among
/// tasks of one priority the one created last first.
pub proof fn lemma_load_is_ordered(rows: Seq<StoredRow>)
    ensures
        is_load_ordered(spec_active_todos(rows)),
{
    lemma_sort_is_ordered(live_todos(rows), SortCriteria::CreatedDate, false);
    lemma_priority_after_date(stable_sort(live_todos(rows), SortCriteria::CreatedDate, false));
}

/// What is loaded from a table mirrors the table.
pub proof fn lemma_load_mirrors(rows: Seq<StoredRow>)
    ensures
        mirrors(spec_active_todos(rows), rows),
{
    let live = live_todos(rows);
    lemma_sort_permutes(live, SortCriteria::CreatedDate, false);
    lemma_sort_permutes(
        stable_sort(live, SortCriteria::CreatedDate, false),
        SortCriteria::Priority,
        false,
    );
}

/// Every task of a list that mirrors the table is the task of a row
/// that is not deleted.
pub proof fn lemma_mirrored_todo_is_live(list: Seq<Todo>, rows: Seq<StoredRow>, k: int) -> (j: int)
    requires
        mirrors(list, rows),
        0 <= k < list.len(),
    ensures
        0 <= j < live_todos(rows).len(),
        live_todos(rows)[j] == list[k],
{
    broadcast use vstd::seq_lib::group_to_multiset_ensures;

    let live = live_todos(rows);
    assert(list.to_multiset().count(list[k]) > 0);
    choose|j: int| 0 <= j < live.len() && live[j] == list[k]
}

/// A deleted task stays in the table and is never seen again: the
/// deletion removes no row and changes no id; every row of the id is
/// marked as deleted afterwards; no task that is loaded afterwards has
/// the id; and an update or another deletion of the id changes nothing.
pub proof fn lemma_soft_delete(rows: Seq<StoredRow>, id: i64, now: i64, todo: Todo, later: i64)
    requires
        todo.id == id,
    ensures
        rows_after_delete(rows, id, now).len() == rows.len(),
        forall|i: int|
            0 <= i < rows.len() ==> (#[trigger] rows_after_delete(rows, id, now)[i]).id
                == rows[i].id,
        forall|i: int|
            0 <= i < rows.len() && rows[i].id == id ==> (#[trigger] rows_after_delete(
                rows,
                id,
                now,
            )[i]).deleted_at.is_some(),
        forall|i: int|
            0 <= i < rows.len() && rows[i].id != id ==> #[trigger] rows_after_delete(
                rows,
                id,
                now,
            )[i] == rows[i],
        forall|k: int|
            0 <= k < spec_active_todos(rows_after_delete(rows, id, now)).len()
                ==> (#[trigger] spec_active_todos(rows_after_delete(rows, id, now))[k]).id != id,
        rows_after_update(rows_after_delete(rows, id, now), todo, later) == rows_after_delete(
            rows,
            id,
            now,
        ),
        rows_after_delete(rows_after_delete(rows, id, now), id, later) == rows_after_delete(
            rows,
            id,
            now,
        ),
{
    let after = rows_after_delete(rows, id, now);
    lemma_live_after_delete(rows, id, now);
    lemma_without_id_has_none(live_todos(rows), id);
    lemma_load_mirrors(after);
    let loaded = spec_active_todos(after);
    assert forall|k: int| 0 <= k < loaded.len() implies (#[trigger] loaded[k]).id != id by {
        lemma_mirrored_todo_is_live(loaded, after, k);
    }
}

} // verus!
