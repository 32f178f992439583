//! The task and its priority.

use vstd::prelude::*;
use crate::clock::current_time;

verus! {

/// How urgent a task is. `Low` orders first, `High` last.
#[derive(Debug, Clone, Copy, PartialEq, Eq, Structural)]
pub enum Priority {
    Low,
    Medium,
    High,
}

impl Priority {
    /// The position of the priority in the order `Low < Medium < High`,
    /// counted from one.
    pub open spec fn rank(self) -> int {
        match self {
            Priority::Low => 1,
            Priority::Medium => 2,
            Priority::High => 3,
        }
    }

    /// The name of the priority as it is shown to the user.
    pub open spec fn spec_label(self) -> Seq<char> {
        match self {
            Priority::Low => "Low"@,
            Priority::Medium => "Medium"@,
            Priority::High => "High"@,
        }
    }

    /// The name of the priority as it is shown to the user.
    pub fn label(&self) -> (name: String)
        ensures
            name@ == self.spec_label(),
    {
        match self {
            Priority::Low => String::from_str("Low"),
            Priority::Medium => String::from_str("Medium"),
            Priority::High => String::from_str("High"),
        }
    }

    /// The priority that follows this one in the cycle
    /// `High -> Medium -> Low -> High`.
    pub open spec fn spec_next(self) -> Priority {
        match self {
            Priority::High => Priority::Medium,
            Priority::Medium => Priority::Low,
            Priority::Low => Priority::High,
        }
    }

    /// The priority that precedes this one in the cycle
    /// `High -> Medium -> Low -> High`.
    pub open spec fn spec_previous(self) -> Priority {
        match self {
            Priority::High => Priority::Low,
            Priority::Medium => Priority::High,
            Priority::Low => Priority::Medium,
        }
    }

    /// One step down the list of priorities, wrapping from `Low` to `High`.
    pub fn next(self) -> (p: Priority)
        ensures
            p == self.spec_next(),
    {
        match self {
            Priority::High => Priority::Medium,
            Priority::Medium => Priority::Low,
            Priority::Low => Priority::High,
        }
    }

    /// One step up the list of priorities, wrapping from `High` to `Low`.
    pub fn previous(self) -> (p: Priority)
        ensures
            p == self.spec_previous(),
    {
        match self {
            Priority::High => Priority::Low,
            Priority::Medium => Priority::High,
            Priority::Low => Priority::Medium,
        }
    }
}

/// The position of an optional priority when tasks are ordered by it: an
/// unset priority orders before `Low`.
pub open spec fn priority_rank(priority: Option<Priority>) -> int {
    match priority {
        Some(p) => p.rank(),
        None => 0,
    }
}

/// One task. Times are microseconds since the Unix epoch.
#[derive(Debug)]
pub struct Todo {
    /// The identifier that the store gave the task; 0 while it has none.
    pub id: i64,
    pub text: String,
    pub completed: bool,
    pub created_at: i64,
    pub completed_at: Option<i64>,
    pub priority: Option<Priority>,
}

impl Clone for Todo {
    fn clone(&self) -> (copy: Self)
        ensures
            copy == *self,
    {
        Todo {
            id: self.id,
            text: self.text.clone(),
            completed: self.completed,
            created_at: self.created_at,
            completed_at: self.completed_at,
            priority: self.priority,
        }
    }
}

impl Todo {
    /// A task is consistent when it carries a completion time exactly
    /// when it is completed.
    pub open spec fn is_consistent(self) -> bool {
        self.completed <==> self.completed_at.is_some()
    }

    /// A task that is not yet stored: open, without priority, created at
    /// the time of the call.
    pub fn new(text: String) -> (todo: Self)
        ensures
            todo == (Todo {
                id: 0,
                text: text,
                completed: false,
                created_at: todo.created_at,
                completed_at: None,
                priority: None,
            }),
            todo.is_consistent(),
    {
        Todo::created(text, current_time())
    }

    /// A task that is not yet stored: open, without priority, created at
    /// `created_at`.
    pub fn created(text: String, created_at: i64) -> (todo: Self)
        ensures
            todo == (Todo {
                id: 0,
                text: text,
                completed: false,
                created_at: created_at,
                completed_at: None,
                priority: None,
            }),
            todo.is_consistent(),
    {
        Todo { id: 0, text, completed: false, created_at, completed_at: None, priority: None }
    }

    /// The task with its completion flipped: completed at `now` if it was
    /// open, open and without completion time if it was completed.
    pub open spec fn spec_toggled(self, now: i64) -> Todo {
        Todo {
            completed: !self.completed,
            completed_at: if self.completed { None } else { Some(now) },
            ..self
        }
    }

    /// The task with its completion flipped at the time `now`.
    pub fn toggled(&self, now: i64) -> (todo: Self)
        ensures
            todo == self.spec_toggled(now),
            todo.is_consistent(),
    {
        Todo {
            id: self.id,
            text: self.text.clone(),
            completed: !self.completed,
            created_at: self.created_at,
            completed_at: if self.completed { None } else { Some(now) },
            priority: self.priority,
        }
    }

    /// The task with another text and priority.
    pub open spec fn spec_revised(self, text: String, priority: Priority) -> Todo {
        Todo { text: text, priority: Some(priority), ..self }
    }

    /// The task with another text and priority; nothing else changes.
    pub fn revised(&self, text: String, priority: Priority) -> (todo: Self)
        ensures
            todo == self.spec_revised(text, priority),
    {
        Todo {
            id: self.id,
            text,
            completed: self.completed,
            created_at: self.created_at,
            completed_at: self.completed_at,
            priority: Some(priority),
        }
    }
}

/// Toggling an open, consistent task twice gives the task back, whatever
/// the two times of toggling were.
pub proof fn lemma_toggle_twice_restores(todo: Todo, first: i64, second: i64)
    requires
        !todo.completed,
        todo.is_consistent(),
    ensures
        todo.spec_toggled(first).spec_toggled(second) == todo,
{
}

/// Toggling a completed task twice gives back the completion flag, and
/// the completion time too where the second toggle happens at that time.
pub proof fn lemma_toggle_twice_completed(todo: Todo, first: i64, second: i64)
    requires
        todo.completed,
    ensures
        todo.spec_toggled(first).spec_toggled(second).completed == todo.completed,
        todo.completed_at == Some(second) ==> todo.spec_toggled(first).spec_toggled(second)
            == todo,
{
}

} // verus!
