//! The session: the item store, the selection and the edit mode, changed only
//! through transitions that keep edit mode tied to the selection.
use vstd::prelude::*;
use crate::input::{Directive, Intent, Key, key_intent};
use crate::store::{ItemModel, Todo, TodoStore, contains_id, ids_unique, retitled};

verus! {

/// Whether an item is being edited, and which.
#[derive(PartialEq, Eq, Structural, Clone, Copy, Debug)]
pub enum EditMode {
    Idle,
    Editing(u128),
}

/// The session as the contracts see it.
pub struct AppModel {
    pub items: Seq<ItemModel>,
    pub selected: Option<int>,
    pub mode: EditMode,
}

impl AppModel {
    pub open spec fn len(self) -> int {
        self.items.len() as int
    }

    /// Ids are unique, a selection lies inside the list, and an item under edit
    /// is the selected one.
    pub open spec fn wf(self) -> bool {
        &&& ids_unique(self.items)
        &&& self.selected is Some ==> 0 <= self.selected->0 < self.len()
        &&& self.mode is Editing ==> self.selected is Some && self.items[self.selected->0].id
            == self.mode->0
    }

    /// Re-derives what depends on the list and the selection: a position past
    /// the end is dropped, and edit mode survives only on the selected item.
    pub open spec fn settled(self) -> AppModel {
        let sel = match self.selected {
            Some(p) => if 0 <= p < self.len() {
                Some(p)
            } else {
                None
            },
            None => None,
        };
        let mode = match self.mode {
            EditMode::Editing(id) => if sel is Some && self.items[sel->0].id == id {
                EditMode::Editing(id)
            } else {
                EditMode::Idle
            },
            EditMode::Idle => EditMode::Idle,
        };
        AppModel { items: self.items, selected: sel, mode }
    }

    /// Selects `sel`, then settles.
    pub open spec fn with_selection(self, sel: Option<int>) -> AppModel {
        AppModel { selected: sel, ..self }.settled()
    }

    /// One step up, floored at the first item; from no selection, the first item.
    pub open spec fn moved_up(self) -> AppModel {
        if self.len() == 0 {
            self
        } else {
            self.with_selection(
                Some(
                    match self.selected {
                        Some(p) => if p > 0 {
                            p - 1
                        } else {
                            0
                        },
                        None => 0,
                    },
                ),
            )
        }
    }

    /// One step down, capped at the last item; from no selection, the first item.
    pub open spec fn moved_down(self) -> AppModel {
        if self.len() == 0 {
            self
        } else {
            self.with_selection(
                Some(
                    match self.selected {
                        Some(p) => if p + 1 < self.len() {
                            p + 1
                        } else {
                            self.len() - 1
                        },
                        None => 0,
                    },
                ),
            )
        }
    }

    /// A new default item under `id` at the end; the selection stays.
    pub open spec fn appended(self, id: u128) -> AppModel {
        AppModel { items: self.items.push(ItemModel::fresh(id)), ..self }.settled()
    }

    /// Edit mode on the selected item; nothing without a selection.
    pub open spec fn edit_begun(self) -> AppModel {
        match self.selected {
            Some(p) => AppModel { mode: EditMode::Editing(self.items[p].id), ..self },
            None => self,
        }
    }

    /// The item under edit takes `text` as its title, and edit mode goes on.
    pub open spec fn text_edited(self, text: Seq<char>) -> AppModel {
        match self.mode {
            EditMode::Editing(id) => AppModel { items: retitled(self.items, id, text), ..self },
            EditMode::Idle => self,
        }
    }

    /// The item under edit takes `text` as its title, and edit mode ends.
    pub open spec fn committed(self, text: Seq<char>) -> AppModel {
        match self.mode {
            EditMode::Editing(id) => AppModel {
                items: retitled(self.items, id, text),
                selected: self.selected,
                mode: EditMode::Idle,
            },
            EditMode::Idle => self,
        }
    }

    /// Edit mode ends; titles keep what was typed.
    pub open spec fn edit_finished(self) -> AppModel {
        AppModel { mode: EditMode::Idle, ..self }
    }

    /// The position of the item carrying `id`.
    pub open spec fn position_of(self, id: u128) -> int {
        choose|p: int| 0 <= p < self.len() && self.items[p].id == id
    }

    /// A pointer activation of the item carrying `id`: on the item under edit it
    /// ends the edit; on another item it selects that item and edits it.
    pub open spec fn activated(self, id: u128) -> AppModel {
        if self.mode == EditMode::Editing(id) {
            self.edit_finished()
        } else if contains_id(self.items, id) {
            AppModel {
                selected: Some(self.position_of(id)),
                mode: EditMode::Editing(id),
                ..self
            }
        } else {
            self
        }
    }

    /// What an intent other than appending does.
    pub open spec fn stepped(self, intent: Intent) -> AppModel {
        match intent {
            Intent::MoveUp => self.moved_up(),
            Intent::MoveDown => self.moved_down(),
            Intent::BeginEdit => self.edit_begun(),
            Intent::Confirm => self.edit_finished(),
            Intent::Exit => self,
            Intent::Ignore => self,
        }
    }

    /// Confirming while idle appends an item.
    pub open spec fn appends_on(self, intent: Intent) -> bool {
        intent == Intent::Confirm && self.mode == EditMode::Idle
    }

    /// What the presentation layer is asked to do after `intent`.
    pub open spec fn directive(self, intent: Intent) -> Directive {
        match intent {
            Intent::BeginEdit => match self.selected {
                Some(p) => Directive::FocusField(p as usize),
                None => Directive::Nothing,
            },
            Intent::Exit => Directive::CloseWindow,
            _ => Directive::Nothing,
        }
    }
}

/// The state of one editing session.
pub struct TodoApp {
    store: TodoStore,
    selected: Option<usize>,
    mode: EditMode,
}

impl View for TodoApp {
    type V = AppModel;

    closed spec fn view(&self) -> AppModel {
        AppModel {
            items: self.store@,
            selected: match self.selected {
                Some(p) => Some(p as int),
                None => None,
            },
            mode: self.mode,
        }
    }
}

impl TodoApp {
    /// An empty list, nothing selected, nothing under edit.
    pub fn new() -> (r: TodoApp)
        ensures
            r@ == (AppModel { items: Seq::empty(), selected: None, mode: EditMode::Idle }),
            r@.wf(),
    {
        TodoApp { store: TodoStore::new(), selected: None, mode: EditMode::Idle }
    }

    /// Drops a selection past the end of the list, and leaves edit mode unless
    /// the selected item is the one under edit.
    pub fn check_editing(&mut self)
        ensures
            final(self)@ == old(self)@.settled(),
            ids_unique(old(self)@.items) ==> final(self)@.wf(),
    {
        if let Some(p) = self.selected {
            if p >= self.store.len() {
                self.selected = None;
            }
        }
        if let EditMode::Editing(id) = self.mode {
            match self.selected {
                Some(p) => match self.store.id_at(p) {
                    Some(at) => if at != id {
                        self.mode = EditMode::Idle;
                    },
                    None => {
                        self.mode = EditMode::Idle;
                    },
                },
                None => {
                    self.mode = EditMode::Idle;
                },
            }
        }
    }

    pub fn move_up(&mut self)
        requires
            old(self)@.wf(),
        ensures
            final(self)@ == old(self)@.moved_up(),
            final(self)@.wf(),
    {
        if self.store.len() == 0 {
            return;
        }
        match self.selected {
            Some(p) => if p > 0 {
                self.selected = Some(p - 1);
            },
            None => {
                self.selected = Some(0);
            },
        }
        self.check_editing();
    }

    pub fn move_down(&mut self)
        requires
            old(self)@.wf(),
        ensures
            final(self)@ == old(self)@.moved_down(),
            final(self)@.wf(),
    {
        let n = self.store.len();
        if n == 0 {
            return;
        }
        match self.selected {
            Some(p) => if p + 1 < n {
                self.selected = Some(p + 1);
            } else {
                self.selected = Some(n - 1);
            },
            None => {
                self.selected = Some(0);
            },
        }
        self.check_editing();
    }

    /// Edit mode on the selected item, asking for focus on its field; without
    /// a selection nothing happens.
    pub fn begin_edit(&mut self) -> (r: Directive)
        requires
            old(self)@.wf(),
        ensures
            final(self)@ == old(self)@.edit_begun(),
            r == old(self)@.directive(Intent::BeginEdit),
            final(self)@.wf(),
    {
        match self.selected {
            Some(p) => {
                let id = self.store.id_at(p);
                match id {
                    Some(id) => {
                        self.mode = EditMode::Editing(id);
                    },
                    None => {},
                }
                Directive::FocusField(p)
            },
            None => Directive::Nothing,
        }
    }

    /// Text typed into the field of the item under edit becomes its title;
    /// when idle nothing happens.
    pub fn edit_text(&mut self, text: &String)
        requires
            old(self)@.wf(),
        ensures
            final(self)@ == old(self)@.text_edited(text@),
            final(self)@.wf(),
    {
        if let EditMode::Editing(id) = self.mode {
            self.store.set_title(id, text);
        }
    }

    /// Writes `text` as the title of the item under edit and ends edit mode;
    /// when idle nothing happens.
    pub fn commit(&mut self, text: &String)
        requires
            old(self)@.wf(),
        ensures
            final(self)@ == old(self)@.committed(text@),
            final(self)@.wf(),
    {
        if let EditMode::Editing(id) = self.mode {
            self.store.set_title(id, text);
            self.mode = EditMode::Idle;
        }
    }

    /// Ends edit mode, keeping the titles as they are.
    pub fn finish_edit(&mut self)
        requires
            old(self)@.wf(),
        ensures
            final(self)@ == old(self)@.edit_finished(),
            final(self)@.wf(),
    {
        self.mode = EditMode::Idle;
    }

    /// A pointer activation of the item carrying `id`: ends the edit of that
    /// item, or selects and edits it, asking for focus on its field.
    pub fn activate(&mut self, id: u128) -> (r: Directive)
        requires
            old(self)@.wf(),
        ensures
            final(self)@ == old(self)@.activated(id),
            r == (if !(old(self)@.mode == EditMode::Editing(id)) && contains_id(old(self)@.items, id) {
                Directive::FocusField(old(self)@.position_of(id) as usize)
            } else {
                Directive::Nothing
            }),
            final(self)@.wf(),
    {
        if self.mode == EditMode::Editing(id) {
            self.mode = EditMode::Idle;
            return Directive::Nothing;
        }
        match self.store.position_of(id) {
            Some(p) => {
                self.selected = Some(p);
                self.mode = EditMode::Editing(id);
                Directive::FocusField(p)
            },
            None => Directive::Nothing,
        }
    }

    /// Appends a default item under `id` unless that id is taken; the
    /// selection and the edit mode stay.
    pub fn add_todo_with_id(&mut self, id: u128) -> (added: bool)
        requires
            old(self)@.wf(),
        ensures
            added == !contains_id(old(self)@.items, id),
            added ==> final(self)@ == old(self)@.appended(id),
            !added ==> final(self)@ == old(self)@,
            final(self)@.wf(),
    {
        let added = self.store.append_with_id(id);
        if added {
            self.check_editing();
        }
        added
    }

    /// Appends a default item under a freshly generated id, which it returns.
    pub fn add_new_todo(&mut self) -> (id: u128)
        requires
            old(self)@.wf(),
        ensures
            !contains_id(old(self)@.items, id),
            final(self)@ == old(self)@.appended(id),
            final(self)@.wf(),
    {
        let id = self.store.append();
        self.check_editing();
        id
    }

    /// Carries out the intent bound to `key`, and says what the presentation
    /// layer should do.
    pub fn handle_key(&mut self, key: Key) -> (r: Directive)
        requires
            old(self)@.wf(),
        ensures
            old(self)@.appends_on(key_intent(key)) ==> exists|id: u128|
                !contains_id(old(self)@.items, id) && final(self)@ == old(self)@.appended(id),
            !old(self)@.appends_on(key_intent(key)) ==> final(self)@ == old(self)@.stepped(
                key_intent(key),
            ),
            r == old(self)@.directive(key_intent(key)),
            final(self)@.wf(),
    {
        match Intent::of(key) {
            Intent::MoveUp => {
                self.move_up();
                Directive::Nothing
            },
            Intent::MoveDown => {
                self.move_down();
                Directive::Nothing
            },
            Intent::BeginEdit => self.begin_edit(),
            Intent::Confirm => {
                match self.mode {
                    EditMode::Editing(_) => self.finish_edit(),
                    EditMode::Idle => {
                        self.add_new_todo();
                    },
                }
                Directive::Nothing
            },
            Intent::Exit => Directive::CloseWindow,
            Intent::Ignore => Directive::Nothing,
        }
    }

    pub fn len(&self) -> (r: usize)
        ensures
            r == self@.len(),
    {
        self.store.len()
    }

    /// The selected position, if any.
    pub fn selected(&self) -> (r: Option<usize>)
        ensures
            r matches Some(p) ==> self@.selected == Some(p as int),
            r is None ==> self@.selected is None,
    {
        self.selected
    }

    pub fn mode(&self) -> (r: EditMode)
        ensures
            r == self@.mode,
    {
        self.mode
    }

    /// The item at `position`, if there is one.
    pub fn todo(&self, position: usize) -> (r: Option<&Todo>)
        ensures
            match r {
                Some(t) => position < self@.len() && t@ == self@.items[position as int],
                None => position >= self@.len(),
            },
    {
        self.store.get(position)
    }

    /// The id of the item at `position`, if there is one.
    pub fn id_at(&self, position: usize) -> (r: Option<u128>)
        ensures
            match r {
                Some(id) => position < self@.len() && id == self@.items[position as int].id,
                None => position >= self@.len(),
            },
    {
        self.store.id_at(position)
    }

    /// The position of the item carrying `id`, if there is one.
    pub fn position_of(&self, id: u128) -> (r: Option<usize>)
        requires
            self@.wf(),
        ensures
            match r {
                Some(p) => p == self@.position_of(id) && contains_id(self@.items, id),
                None => !contains_id(self@.items, id),
            },
    {
        self.store.position_of(id)
    }

    /// Whether the item at `position` is shown as an edit field.
    pub fn is_editing(&self, position: usize) -> (r: bool)
        ensures
            r == (position < self@.len() && self@.mode == EditMode::Editing(
                self@.items[position as int].id,
            )),
    {
        match self.mode {
            EditMode::Editing(id) => match self.store.id_at(position) {
                Some(at) => at == id,
                None => false,
            },
            EditMode::Idle => false,
        }
    }
}

} // verus!
