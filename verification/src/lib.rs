//! Editing core of a terminal snippet manager: a gap buffer for text, the
//! snippet list with its filter and selection, the interaction modes, and the
//! widgets that turn key presses into buffer edits and cursor positions.

pub mod editor;
pub mod strings;
pub mod event;
pub mod filter;
pub mod app;
pub mod cursor;
pub mod selection;
pub mod view;
pub mod persistence;
