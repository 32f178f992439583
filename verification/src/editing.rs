//! The editing session: text and priority as the user has typed them so
//! far, before they are committed or discarded.

use vstd::prelude::*;
use crate::todo::{Priority, Todo};

verus! {

/// The field that typed characters go to.
#[derive(Debug, Clone, Copy, PartialEq, Eq, Structural)]
pub enum SelectableField {
    Text,
    Priority,
}

/// What the user has entered.
#[derive(Debug)]
pub struct InputFields {
    pub text: String,
    pub priority: Option<Priority>,
}

/// The editing session.
#[derive(Debug)]
pub struct EditingState {
    pub input_fields: InputFields,
    pub selected_field: Option<SelectableField>,
}

/// The editing session as a value: the characters entered, the priority
/// chosen and the field that is active.
pub struct EditingView {
    pub text: Seq<char>,
    pub priority: Option<Priority>,
    pub selected_field: Option<SelectableField>,
}

/// The priority that a character chooses directly: `h` or `1` for
/// `High`, `m` or `2` for `Medium`, `l` or `3` for `Low`.
pub open spec fn chosen_priority(c: char) -> Option<Priority> {
    if c == 'h' || c == '1' {
        Some(Priority::High)
    } else if c == 'm' || c == '2' {
        Some(Priority::Medium)
    } else if c == 'l' || c == '3' {
        Some(Priority::Low)
    } else {
        None
    }
}

/// The priority after the character `c` was typed into the priority
/// field: the one that `c` chooses, or one step from the current one
/// (from `Medium` where there is none) down on `j` and up on `k`, or the
/// current one.
pub open spec fn priority_after(current: Option<Priority>, c: char) -> Option<Priority> {
    let base = match current {
        Some(p) => p,
        None => Priority::Medium,
    };
    if c == 'j' {
        Some(base.spec_next())
    } else if c == 'k' {
        Some(base.spec_previous())
    } else if chosen_priority(c).is_some() {
        chosen_priority(c)
    } else {
        current
    }
}

impl EditingView {
    /// The session after the character `c` was typed: appended to the
    /// text, or applied to the priority, as the active field says; with
    /// no active field nothing changes.
    pub open spec fn typed(self, c: char) -> EditingView {
        match self.selected_field {
            Some(SelectableField::Text) => EditingView { text: self.text.push(c), ..self },
            Some(SelectableField::Priority) => EditingView {
                priority: priority_after(self.priority, c),
                ..self
            },
            None => self,
        }
    }

    /// The session after the last character was erased; only the text
    /// field, when it is active and not empty, loses one.
    pub open spec fn erased(self) -> EditingView {
        if self.selected_field == Some(SelectableField::Text) && self.text.len() > 0 {
            EditingView { text: self.text.drop_last(), ..self }
        } else {
            self
        }
    }

    /// The session with the other field active; the text field where
    /// none was.
    pub open spec fn switched(self) -> EditingView {
        EditingView {
            selected_field: match self.selected_field {
                Some(SelectableField::Text) => Some(SelectableField::Priority),
                Some(SelectableField::Priority) => Some(SelectableField::Text),
                None => Some(SelectableField::Text),
            },
            ..self
        }
    }

    /// The session with nothing entered; the active field stays.
    pub open spec fn cleared(self) -> EditingView {
        EditingView { text: Seq::empty(), priority: None, ..self }
    }
}

impl View for EditingState {
    type V = EditingView;

    open spec fn view(&self) -> EditingView {
        EditingView {
            text: self.input_fields.text@,
            priority: self.input_fields.priority,
            selected_field: self.selected_field,
        }
    }
}

impl EditingState {
    /// A session with nothing entered and no active field.
    pub fn idle() -> (session: Self)
        ensures
            session@ == (EditingView { text: Seq::empty(), priority: None, selected_field: None }),
    {
        EditingState {
            input_fields: InputFields { text: String::new(), priority: None },
            selected_field: None,
        }
    }

    /// The session that creates a task: no text yet, priority `Medium`,
    /// the text field active.
    pub fn for_new() -> (session: Self)
        ensures
            session@ == (EditingView {
                text: Seq::empty(),
                priority: Some(Priority::Medium),
                selected_field: Some(SelectableField::Text),
            }),
    {
        EditingState {
            input_fields: InputFields { text: String::new(), priority: Some(Priority::Medium) },
            selected_field: Some(SelectableField::Text),
        }
    }

    /// The session that edits `todo`: its text and priority, the text
    /// field active.
    pub fn for_todo(todo: &Todo) -> (session: Self)
        ensures
            session@ == (EditingView {
                text: todo.text@,
                priority: todo.priority,
                selected_field: Some(SelectableField::Text),
            }),
    {
        EditingState {
            input_fields: InputFields { text: todo.text.clone(), priority: todo.priority },
            selected_field: Some(SelectableField::Text),
        }
    }

    /// Takes one typed character.
    pub fn type_char(&mut self, c: char)
        ensures
            final(self)@ == old(self)@.typed(c),
    {
        match self.selected_field {
            Some(SelectableField::Text) => {
                self.input_fields.text.push(c);
            },
            Some(SelectableField::Priority) => {
                let base = match self.input_fields.priority {
                    Some(p) => p,
                    None => Priority::Medium,
                };
                if c == 'j' {
                    self.input_fields.priority = Some(base.next());
                } else if c == 'k' {
                    self.input_fields.priority = Some(base.previous());
                } else if c == 'h' || c == '1' {
                    self.input_fields.priority = Some(Priority::High);
                } else if c == 'm' || c == '2' {
                    self.input_fields.priority = Some(Priority::Medium);
                } else if c == 'l' || c == '3' {
                    self.input_fields.priority = Some(Priority::Low);
                }
            },
            None => {},
        }
    }

    /// Erases the last character of the text, if the text field is
    /// active.
    pub fn backspace(&mut self)
        ensures
            final(self)@ == old(self)@.erased(),
    {
        match self.selected_field {
            Some(SelectableField::Text) => {
                let _ = self.input_fields.text.pop();
            },
            _ => {},
        }
    }

    /// Makes the other field active.
    pub fn next_field(&mut self)
        ensures
            final(self)@ == old(self)@.switched(),
    {
        self.selected_field = match self.selected_field {
            Some(SelectableField::Text) => Some(SelectableField::Priority),
            Some(SelectableField::Priority) => Some(SelectableField::Text),
            None => Some(SelectableField::Text),
        };
    }

    /// Forgets what was entered.
    pub fn clear(&mut self)
        ensures
            final(self)@ == old(self)@.cleared(),
    {
        self.input_fields.text = String::new();
        self.input_fields.priority = None;
    }

    /// Whether there is text to commit.
    pub fn has_text(&self) -> (yes: bool)
        ensures
            yes == (self@.text.len() > 0),
    {
        !self.input_fields.text.as_str().is_empty()
    }
}

} // verus!
