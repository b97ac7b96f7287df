//! The interaction core of a keyboard-driven todo list: an ordered store of
//! items, a selection cursor, and an edit mode that always follows the
//! selection.
pub mod input;
pub mod laws;
pub mod session;
pub mod store;
pub mod style;
