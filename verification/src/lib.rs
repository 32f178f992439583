//! A personal task list: the list itself, the store behind it, the editing
//! session and the notification shown after a failure.

pub mod clock;
pub mod convergence;
pub mod editing;
pub mod invariants;
pub mod keys;
pub mod sorting;
pub mod state;
pub mod store;
pub mod table;
pub mod text;
pub mod todo;
