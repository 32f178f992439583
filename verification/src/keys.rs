//! What a key does to the task list.

use vstd::prelude::*;
use crate::sorting::SortCriteria;
use crate::state::{completed_count, new_todo, App, AppView, Mode};
use crate::store::DatabaseError;

verus! {

/// A key as the list understands it.
#[derive(Debug, Clone, Copy, PartialEq, Eq)]
pub enum Key {
    Char(char),
    Backspace,
    Tab,
    Enter,
    Esc,
    Up,
    Down,
    Other,
}

/// What the caller is to do after a key.
#[derive(Debug, Clone, Copy, PartialEq, Eq, Structural)]
pub enum Reaction {
    /// Go on.
    Continue,
    /// Wipe the screen before it is drawn again.
    Redraw,
    /// Leave.
    Quit,
}

/// `after` is `before` with the task at `index` toggled, whatever the
/// store answered.
pub open spec fn is_toggle(before: AppView, after: AppView, index: int) -> bool {
    exists|now: i64, outcome: Result<(), DatabaseError>|
        after == #[trigger] before.after_toggle(index, now, outcome)
}

/// `after` is `before` with the task at `index` deleted, whatever the
/// store answered.
pub open spec fn is_delete(before: AppView, after: AppView, index: int) -> bool {
    exists|now: i64, outcome: Result<(), DatabaseError>|
        after == #[trigger] before.after_delete(index, outcome, now)
}

/// `after` is `before` with its completed tasks cleared, whatever the
/// store answered.
pub open spec fn is_clear(before: AppView, after: AppView) -> bool {
    exists|now: i64, outcomes: Seq<Result<(), DatabaseError>>|
        after == #[trigger] before.after_clear(outcomes, now)
}

/// `after` is `before` with its session committed, whatever the store
/// answered: the selected task updated, or a task added where none is
/// selected, and the session ended.
pub open spec fn is_commit(before: AppView, after: AppView) -> bool {
    match before.selected {
        Some(index) => exists|text: String, now: i64, outcome: Result<(), DatabaseError>|
            text@ == before.editing.text && after == (#[trigger] before.after_update(
                index as int,
                text,
                before.committed_priority(),
                outcome,
                now,
            )).closed(false),
        None => exists|text: String, now: i64, outcome: Result<i64, DatabaseError>|
            text@ == before.editing.text && after == (#[trigger] before.after_add(
                new_todo(text, before.committed_priority(), now),
                outcome,
                now,
            )).closed(true),
    }
}

/// What the character `c` does while the user moves through the list.
pub open spec fn is_normal_char(before: AppView, c: char, after: AppView) -> bool {
    if c == 'h' {
        after == (AppView { show_help: !before.show_help, ..before })
    } else if c == 'n' {
        after == before.creating()
    } else if c == 'e' {
        after == before.editing_selected()
    } else if c == 'd' {
        match before.selected {
            Some(index) => is_delete(before, after, index as int),
            None => after == before,
        }
    } else if c == 'c' {
        is_clear(before, after)
    } else if c == ' ' {
        match before.selected {
            Some(index) => is_toggle(before, after, index as int),
            None => after == before,
        }
    } else if c == 'k' {
        after == before.after_previous()
    } else if c == 'j' {
        after == before.after_next()
    } else if c == 'p' {
        after == before.sorted_by(SortCriteria::Priority)
    } else if c == 't' {
        after == before.sorted_by(SortCriteria::CreatedDate)
    } else if c == 's' {
        after == before.sorted_by(SortCriteria::Completed)
    } else if c == 'r' {
        after == before.reversed().sorted()
    } else {
        after == before
    }
}

/// What `key` does: `after` is a list that can follow `before`, and
/// `reaction` is what the caller is told.
pub open spec fn is_key_effect(before: AppView, key: Key, after: AppView, reaction: Reaction)
    -> bool {
    match before.mode {
        Mode::Normal => match key {
            Key::Char(c) => if c == 'q' {
                after == before && reaction == Reaction::Quit
            } else {
                is_normal_char(before, c, after) && reaction == Reaction::Continue
            },
            Key::Up => after == before.after_previous() && reaction == Reaction::Continue,
            Key::Down => after == before.after_next() && reaction == Reaction::Continue,
            _ => after == before && reaction == Reaction::Continue,
        },
        Mode::Editing => match key {
            Key::Char(c) => after == (AppView { editing: before.editing.typed(c), ..before })
                && reaction == Reaction::Continue,
            Key::Backspace => after == (AppView { editing: before.editing.erased(), ..before })
                && reaction == Reaction::Continue,
            Key::Tab => after == (AppView { editing: before.editing.switched(), ..before })
                && reaction == Reaction::Continue,
            Key::Enter => if before.can_commit() {
                is_commit(before, after) && reaction == Reaction::Redraw
            } else {
                after == before && reaction == Reaction::Continue
            },
            Key::Esc => after == before.cancelled() && reaction == Reaction::Continue,
            _ => after == before && reaction == Reaction::Continue,
        },
    }
}

/// The number of statements that `key` hands to the store: one for a
/// deletion or a toggle of a selected task of the list, one for each
/// completed task when they are cleared, what the commit takes for
/// `Enter` while editing, and none for any other key.
pub open spec fn key_writes(before: AppView, key: Key) -> nat {
    match before.mode {
        Mode::Normal => match key {
            Key::Char(c) => if c == 'd' || c == ' ' {
                match before.selected {
                    Some(index) if index < before.todos.len() => 1,
                    _ => 0,
                }
            } else if c == 'c' {
                completed_count(before.todos)
            } else {
                0
            },
            _ => 0,
        },
        Mode::Editing => match key {
            Key::Enter => before.commit_writes(),
            _ => 0,
        },
    }
}

impl App {
    /// Carries out what the character `c` asks for while the user moves
    /// through the list. A failure of the store is shown as a message.
    fn handle_normal_char(&mut self, c: char)
        requires
            old(self)@.mode == Mode::Normal,
        ensures
            is_normal_char(old(self)@, c, final(self)@),
            final(self).db.writes() == old(self).db.writes() + key_writes(old(self)@, Key::Char(c)),
    {
        if c == 'h' {
            self.toggle_help();
        } else if c == 'n' {
            self.begin_create();
        } else if c == 'e' {
            self.begin_edit();
        } else if c == 'd' {
            match self.selected {
                Some(index) => {
                    let _ = self.delete_todo(index);
                },
                None => {},
            }
        } else if c == 'c' {
            let _ = self.clear_completed();
        } else if c == ' ' {
            match self.selected {
                Some(index) => {
                    let _ = self.toggle_todo(index);
                },
                None => {},
            }
        } else if c == 'k' {
            self.select_previous();
        } else if c == 'j' {
            self.select_next();
        } else if c == 'p' {
            self.set_sort_criteria(SortCriteria::Priority);
        } else if c == 't' {
            self.set_sort_criteria(SortCriteria::CreatedDate);
        } else if c == 's' {
            self.set_sort_criteria(SortCriteria::Completed);
        } else if c == 'r' {
            self.toggle_sort_direction();
            self.sort_todos();
        }
    }

    /// Carries out what `key` asks for in the current mode, and says
    /// what the caller is to do next. A failure of the store is shown as
    /// a message.
    pub fn handle_key(&mut self, key: Key) -> (reaction: Reaction)
        ensures
            is_key_effect(old(self)@, key, final(self)@, reaction),
            final(self).db.writes() == old(self).db.writes() + key_writes(old(self)@, key),
    {
        match self.mode {
            Mode::Normal => match key {
                Key::Char(c) => {
                    if c == 'q' {
                        Reaction::Quit
                    } else {
                        self.handle_normal_char(c);
                        Reaction::Continue
                    }
                },
                Key::Up => {
                    self.select_previous();
                    Reaction::Continue
                },
                Key::Down => {
                    self.select_next();
                    Reaction::Continue
                },
                _ => Reaction::Continue,
            },
            Mode::Editing => match key {
                Key::Char(c) => {
                    self.editing_state.type_char(c);
                    Reaction::Continue
                },
                Key::Backspace => {
                    self.editing_state.backspace();
                    Reaction::Continue
                },
                Key::Tab => {
                    self.editing_state.next_field();
                    Reaction::Continue
                },
                Key::Enter => {
                    match self.commit_edit() {
                        Ok(false) => Reaction::Continue,
                        _ => Reaction::Redraw,
                    }
                },
                Key::Esc => {
                    self.cancel_edit();
                    Reaction::Continue
                },
                _ => Reaction::Continue,
            },
        }
    }
}

} // verus!
