//! Stable ordering of tasks by one of their fields.

use vstd::prelude::*;
use crate::todo::{priority_rank, Todo};

verus! {

/// The field by which the list is ordered.
#[derive(Debug, Clone, Copy, PartialEq, Eq, Structural)]
pub enum SortCriteria {
    Priority,
    Completed,
    CreatedDate,
}

/// The number by which a task is ordered under `criteria`: the rank of
/// its priority, 0 or 1 for open or completed, or its time of creation.
pub open spec fn sort_key(todo: Todo, criteria: SortCriteria) -> int {
    match criteria {
        SortCriteria::Priority => priority_rank(todo.priority),
        SortCriteria::Completed => if todo.completed { 1 } else { 0 },
        SortCriteria::CreatedDate => todo.created_at as int,
    }
}

/// Whether `a` may stand before `b`: its key is not greater when
/// ascending, not smaller when descending.
pub open spec fn in_order(a: Todo, b: Todo, criteria: SortCriteria, ascending: bool) -> bool {
    if ascending {
        sort_key(a, criteria) <= sort_key(b, criteria)
    } else {
        sort_key(a, criteria) >= sort_key(b, criteria)
    }
}

/// Every task of `s` may stand before every later one.
pub open spec fn is_ordered(s: Seq<Todo>, criteria: SortCriteria, ascending: bool) -> bool {
    forall|i: int, j: int| 0 <= i < j < s.len() ==> in_order(s[i], s[j], criteria, ascending)
}

/// `s` with `t` put behind the last task that may stand before it.
pub open spec fn insert_ordered(
    s: Seq<Todo>,
    t: Todo,
    criteria: SortCriteria,
    ascending: bool,
) -> Seq<Todo>
    decreases s.len(),
{
    if s.len() == 0 {
        seq![t]
    } else if in_order(s.last(), t, criteria, ascending) {
        s.push(t)
    } else {
        insert_ordered(s.drop_last(), t, criteria, ascending).push(s.last())
    }
}

/// The tasks of `s` in order, tasks of equal key in the order in which
/// `s` holds them.
pub open spec fn stable_sort(s: Seq<Todo>, criteria: SortCriteria, ascending: bool) -> Seq<Todo>
    decreases s.len(),
{
    if s.len() == 0 {
        Seq::empty()
    } else {
        insert_ordered(stable_sort(s.drop_last(), criteria, ascending), s.last(), criteria, ascending)
    }
}

/// The tasks of `s` whose key under `criteria` is `key`, in the order of `s`.
pub open spec fn with_key(s: Seq<Todo>, criteria: SortCriteria, key: int) -> Seq<Todo>
    decreases s.len(),
{
    if s.len() == 0 {
        Seq::empty()
    } else if sort_key(s.last(), criteria) == key {
        with_key(s.drop_last(), criteria, key).push(s.last())
    } else {
        with_key(s.drop_last(), criteria, key)
    }
}

/// Inserting at a place behind which no task may stand before `t`, and
/// before which the nearest task may, is what `insert_ordered` does.
pub proof fn lemma_insert_at(
    s: Seq<Todo>,
    t: Todo,
    criteria: SortCriteria,
    ascending: bool,
    p: int,
)
    requires
        0 <= p <= s.len(),
        forall|j: int| p <= j < s.len() ==> !in_order(#[trigger] s[j], t, criteria, ascending),
        p > 0 ==> in_order(s[p - 1], t, criteria, ascending),
    ensures
        insert_ordered(s, t, criteria, ascending) == s.insert(p, t),
    decreases s.len(),
{
    if p < s.len() {
        lemma_insert_at(s.drop_last(), t, criteria, ascending, p);
    }
}

/// The place at which `insert_ordered` puts `t`.
pub proof fn lemma_insert_position(
    s: Seq<Todo>,
    t: Todo,
    criteria: SortCriteria,
    ascending: bool,
) -> (p: int)
    ensures
        0 <= p <= s.len(),
        forall|j: int| p <= j < s.len() ==> !in_order(#[trigger] s[j], t, criteria, ascending),
        p > 0 ==> in_order(s[p - 1], t, criteria, ascending),
        insert_ordered(s, t, criteria, ascending) == s.insert(p, t),
    decreases s.len(),
{
    let p = if s.len() == 0 {
        0
    } else if in_order(s.last(), t, criteria, ascending) {
        s.len() as int
    } else {
        let q = lemma_insert_position(s.drop_last(), t, criteria, ascending);
        assert forall|j: int| q <= j < s.len() implies !in_order(
            #[trigger] s[j],
            t,
            criteria,
            ascending,
        ) by {
            if j < s.len() - 1 {
                assert(s.drop_last()[j] == s[j]);
            }
        }
        q
    };
    lemma_insert_at(s, t, criteria, ascending, p);
    p
}

/// Inserting into an ordered sequence leaves it ordered.
pub proof fn lemma_insert_keeps_order(
    s: Seq<Todo>,
    t: Todo,
    criteria: SortCriteria,
    ascending: bool,
)
    requires
        is_ordered(s, criteria, ascending),
    ensures
        is_ordered(insert_ordered(s, t, criteria, ascending), criteria, ascending),
{
    let p = lemma_insert_position(s, t, criteria, ascending);
    let r = s.insert(p, t);
    assert forall|i: int, j: int| 0 <= i < j < r.len() implies in_order(
        r[i],
        r[j],
        criteria,
        ascending,
    ) by {
        if j == p && i < p - 1 {
            assert(in_order(s[i], s[p - 1], criteria, ascending));
        }
    }
}

/// Inserting adds the one task to those that the sequence holds.
pub proof fn lemma_insert_adds_one(
    s: Seq<Todo>,
    t: Todo,
    criteria: SortCriteria,
    ascending: bool,
)
    ensures
        insert_ordered(s, t, criteria, ascending).to_multiset() == s.to_multiset().insert(t),
        insert_ordered(s, t, criteria, ascending).len() == s.len() + 1,
    decreases s.len(),
{
    broadcast use vstd::seq_lib::group_to_multiset_ensures;

    if s.len() > 0 && !in_order(s.last(), t, criteria, ascending) {
        let front = s.drop_last();
        lemma_insert_adds_one(front, t, criteria, ascending);
        assert(s =~= front.push(s.last()));
    }
}

/// Inserting leaves the tasks of every key in their order, the new task
/// last among those of its own key.
pub proof fn lemma_insert_with_key(
    s: Seq<Todo>,
    t: Todo,
    criteria: SortCriteria,
    ascending: bool,
    key: int,
)
    ensures
        with_key(insert_ordered(s, t, criteria, ascending), criteria, key) == if sort_key(
            t,
            criteria,
        ) == key {
            with_key(s, criteria, key).push(t)
        } else {
            with_key(s, criteria, key)
        },
    decreases s.len(),
{
    if s.len() == 0 {
        assert(seq![t].drop_last() =~= s);
    } else if in_order(s.last(), t, criteria, ascending) {
        assert(s.push(t).drop_last() =~= s);
    } else {
        let front = s.drop_last();
        lemma_insert_with_key(front, t, criteria, ascending, key);
        let r = insert_ordered(front, t, criteria, ascending);
        assert(r.push(s.last()).drop_last() =~= r);
    }
}

/// What `stable_sort` gives is ordered.
pub proof fn lemma_sort_is_ordered(s: Seq<Todo>, criteria: SortCriteria, ascending: bool)
    ensures
        is_ordered(stable_sort(s, criteria, ascending), criteria, ascending),
    decreases s.len(),
{
    if s.len() > 0 {
        lemma_sort_is_ordered(s.drop_last(), criteria, ascending);
        lemma_insert_keeps_order(
            stable_sort(s.drop_last(), criteria, ascending),
            s.last(),
            criteria,
            ascending,
        );
    }
}

/// What `stable_sort` gives holds the same tasks, each as often as before.
pub proof fn lemma_sort_permutes(s: Seq<Todo>, criteria: SortCriteria, ascending: bool)
    ensures
        stable_sort(s, criteria, ascending).to_multiset() == s.to_multiset(),
        stable_sort(s, criteria, ascending).len() == s.len(),
    decreases s.len(),
{
    broadcast use vstd::seq_lib::group_to_multiset_ensures;

    if s.len() > 0 {
        lemma_sort_permutes(s.drop_last(), criteria, ascending);
        lemma_insert_adds_one(
            stable_sort(s.drop_last(), criteria, ascending),
            s.last(),
            criteria,
            ascending,
        );
        assert(s =~= s.drop_last().push(s.last()));
    }
}

/// Every task of a sorted list is a task of the list that was sorted.
pub proof fn lemma_sorted_todo_was_there(
    s: Seq<Todo>,
    criteria: SortCriteria,
    ascending: bool,
    k: int,
) -> (i: int)
    requires
        0 <= k < stable_sort(s, criteria, ascending).len(),
    ensures
        0 <= i < s.len(),
        s[i] == stable_sort(s, criteria, ascending)[k],
{
    broadcast use vstd::seq_lib::group_to_multiset_ensures;

    let sorted = stable_sort(s, criteria, ascending);
    lemma_sort_permutes(s, criteria, ascending);
    assert(sorted.to_multiset().count(sorted[k]) > 0);
    choose|i: int| 0 <= i < s.len() && s[i] == sorted[k]
}

/// Sorting is stable: the tasks of any one key stand in the result in
/// the order in which they stood before.
pub proof fn lemma_sort_is_stable(
    s: Seq<Todo>,
    criteria: SortCriteria,
    ascending: bool,
    key: int,
)
    ensures
        with_key(stable_sort(s, criteria, ascending), criteria, key) == with_key(s, criteria, key),
    decreases s.len(),
{
    if s.len() > 0 {
        lemma_sort_is_stable(s.drop_last(), criteria, ascending, key);
        lemma_insert_with_key(
            stable_sort(s.drop_last(), criteria, ascending),
            s.last(),
            criteria,
            ascending,
            key,
        );
    }
}

/// Where a task of the key `key` stands among the tasks of that key.
pub proof fn lemma_place_with_key(s: Seq<Todo>, criteria: SortCriteria, key: int, i: int) -> (p:
    int)
    requires
        0 <= i < s.len(),
        sort_key(s[i], criteria) == key,
    ensures
        0 <= p < with_key(s, criteria, key).len(),
        with_key(s, criteria, key)[p] == s[i],
    decreases s.len(),
{
    let front = s.drop_last();
    if i == s.len() - 1 {
        with_key(front, criteria, key).len() as int
    } else {
        lemma_place_with_key(front, criteria, key, i)
    }
}

/// Two tasks of the key `key` stand among the tasks of that key in the
/// order in which the sequence holds them.
pub proof fn lemma_places_with_key(
    s: Seq<Todo>,
    criteria: SortCriteria,
    key: int,
    i: int,
    j: int,
) -> (places: (int, int))
    requires
        0 <= i < j < s.len(),
        sort_key(s[i], criteria) == key,
        sort_key(s[j], criteria) == key,
    ensures
        0 <= places.0 < places.1 < with_key(s, criteria, key).len(),
        with_key(s, criteria, key)[places.0] == s[i],
        with_key(s, criteria, key)[places.1] == s[j],
    decreases s.len(),
{
    let front = s.drop_last();
    if j == s.len() - 1 {
        let p = lemma_place_with_key(front, criteria, key, i);
        (p, with_key(front, criteria, key).len() as int)
    } else {
        lemma_places_with_key(front, criteria, key, i, j)
    }
}

/// Where a task that stands among those of the key `key` stands in the
/// sequence.
pub proof fn lemma_origin_with_key(s: Seq<Todo>, criteria: SortCriteria, key: int, p: int) -> (i:
    int)
    requires
        0 <= p < with_key(s, criteria, key).len(),
    ensures
        0 <= i < s.len(),
        s[i] == with_key(s, criteria, key)[p],
    decreases s.len(),
{
    let front = s.drop_last();
    if sort_key(s.last(), criteria) == key && p == with_key(front, criteria, key).len() {
        s.len() - 1
    } else {
        lemma_origin_with_key(front, criteria, key, p)
    }
}

/// Two tasks that stand among those of the key `key` stand in the
/// sequence in the same order.
pub proof fn lemma_origins_with_key(
    s: Seq<Todo>,
    criteria: SortCriteria,
    key: int,
    p: int,
    q: int,
) -> (origins: (int, int))
    requires
        0 <= p < q < with_key(s, criteria, key).len(),
    ensures
        0 <= origins.0 < origins.1 < s.len(),
        s[origins.0] == with_key(s, criteria, key)[p],
        s[origins.1] == with_key(s, criteria, key)[q],
    decreases s.len(),
{
    let front = s.drop_last();
    if sort_key(s.last(), criteria) == key && q == with_key(front, criteria, key).len() {
        let i = lemma_origin_with_key(front, criteria, key, p);
        (i, s.len() - 1)
    } else {
        lemma_origins_with_key(front, criteria, key, p, q)
    }
}

/// Sorting never swaps two tasks of equal key: where `s[i]` stands
/// before `s[j]` and both have the same key, they stand in that order in
/// the result too.
pub proof fn lemma_sort_keeps_ties(
    s: Seq<Todo>,
    criteria: SortCriteria,
    ascending: bool,
    i: int,
    j: int,
) -> (places: (int, int))
    requires
        0 <= i < j < s.len(),
        sort_key(s[i], criteria) == sort_key(s[j], criteria),
    ensures
        0 <= places.0 < places.1 < stable_sort(s, criteria, ascending).len(),
        stable_sort(s, criteria, ascending)[places.0] == s[i],
        stable_sort(s, criteria, ascending)[places.1] == s[j],
{
    let key = sort_key(s[i], criteria);
    let (p, q) = lemma_places_with_key(s, criteria, key, i, j);
    lemma_sort_is_stable(s, criteria, ascending, key);
    lemma_origins_with_key(stable_sort(s, criteria, ascending), criteria, key, p, q)
}

/// Sorting an ordered sequence changes nothing.
pub proof fn lemma_sort_fixes_ordered(s: Seq<Todo>, criteria: SortCriteria, ascending: bool)
    requires
        is_ordered(s, criteria, ascending),
    ensures
        stable_sort(s, criteria, ascending) == s,
    decreases s.len(),
{
    if s.len() > 0 {
        lemma_sort_fixes_ordered(s.drop_last(), criteria, ascending);
    }
}

/// Sorting twice by the same field and direction is sorting once: the
/// second sort moves nothing.
pub proof fn lemma_sort_twice(s: Seq<Todo>, criteria: SortCriteria, ascending: bool)
    ensures
        stable_sort(stable_sort(s, criteria, ascending), criteria, ascending) == stable_sort(
            s,
            criteria,
            ascending,
        ),
{
    lemma_sort_is_ordered(s, criteria, ascending);
    lemma_sort_fixes_ordered(stable_sort(s, criteria, ascending), criteria, ascending);
}

/// Whether `a` may stand before `b` under `criteria` and the direction.
pub fn may_precede(a: &Todo, b: &Todo, criteria: SortCriteria, ascending: bool) -> (yes: bool)
    ensures
        yes == in_order(*a, *b, criteria, ascending),
{
    match criteria {
        SortCriteria::Priority => {
            let ka: u8 = rank_of(a);
            let kb: u8 = rank_of(b);
            if ascending {
                ka <= kb
            } else {
                ka >= kb
            }
        },
        SortCriteria::Completed => {
            if ascending {
                !a.completed || b.completed
            } else {
                a.completed || !b.completed
            }
        },
        SortCriteria::CreatedDate => {
            if ascending {
                a.created_at <= b.created_at
            } else {
                a.created_at >= b.created_at
            }
        },
    }
}

/// The rank of a task's priority, 0 where it has none.
fn rank_of(todo: &Todo) -> (rank: u8)
    ensures
        rank == priority_rank(todo.priority),
{
    match todo.priority {
        None => 0,
        Some(crate::todo::Priority::Low) => 1,
        Some(crate::todo::Priority::Medium) => 2,
        Some(crate::todo::Priority::High) => 3,
    }
}

/// Orders `items` by `criteria`, ascending or descending, keeping tasks
/// of equal key in the order in which they came.
pub fn sort_stable(items: Vec<Todo>, criteria: SortCriteria, ascending: bool) -> (sorted: Vec<Todo>)
    ensures
        sorted@ == stable_sort(items@, criteria, ascending),
{
    let ghost given = items@;
    let mut rest = items;
    let mut sorted: Vec<Todo> = Vec::new();
    let ghost mut done: int = 0;
    while rest.len() > 0
        invariant
            0 <= done <= given.len(),
            rest@ == given.skip(done),
            sorted@ == stable_sort(given.take(done), criteria, ascending),
        decreases rest.len(),
    {
        let t = rest.remove(0);
        let mut p: usize = sorted.len();
        while p > 0 && !may_precede(&sorted[p - 1], &t, criteria, ascending)
            invariant
                0 <= p <= sorted.len(),
                forall|j: int|
                    p <= j < sorted.len() ==> !in_order(
                        #[trigger] sorted@[j],
                        t,
                        criteria,
                        ascending,
                    ),
            decreases p,
        {
            p -= 1;
        }
        proof {
            lemma_insert_at(sorted@, t, criteria, ascending, p as int);
            assert(given.take(done + 1).drop_last() =~= given.take(done));
            done = done + 1;
        }
        sorted.insert(p, t);
    }
    proof {
        assert(given.take(done) =~= given);
    }
    sorted
}

} // verus!
