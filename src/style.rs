//! Which rows of the list take the highlight of the selection.
use vstd::prelude::*;
use crate::session::TodoApp;

verus! {

/// The highlight of the selected row. Its colours belong to the presentation
/// layer; which row carries it is decided here.
pub struct SelectedTodo;

impl SelectedTodo {
    /// Whether the row at `position` is drawn highlighted.
    pub fn applies(app: &TodoApp, position: usize) -> (r: bool)
        ensures
            r == (app@.selected == Some(position as int)),
    {
        match app.selected() {
            Some(p) => p == position,
            None => false,
        }
    }
}

} // verus!
