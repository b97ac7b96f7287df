//! The ordered store of todo items, addressed by stable ids.
use vstd::prelude::*;
use vstd::set_lib::{lemma_int_range, lemma_len_subset, set_int_range};

verus! {

/// An item as the contracts see it.
pub struct ItemModel {
    pub id: u128,
    pub title: Seq<char>,
    pub description: Seq<char>,
    pub priority: i32,
}

/// The title that every new item starts with.
pub open spec fn default_title() -> Seq<char> {
    "New Todo"@
}

/// The description that every new item carries.
pub open spec fn default_description() -> Seq<char> {
    "New Todo Description"@
}

impl ItemModel {
    /// A freshly created item with the given id.
    pub open spec fn fresh(id: u128) -> ItemModel {
        ItemModel { id, title: default_title(), description: default_description(), priority: 0 }
    }

    pub open spec fn with_title(self, title: Seq<char>) -> ItemModel {
        ItemModel { title, ..self }
    }
}

/// No two items share an id.
pub open spec fn ids_unique(items: Seq<ItemModel>) -> bool {
    forall|i: int, j: int|
        0 <= i < items.len() && 0 <= j < items.len() && i != j ==> items[i].id != items[j].id
}

/// Some item carries `id`.
pub open spec fn contains_id(items: Seq<ItemModel>, id: u128) -> bool {
    exists|i: int| 0 <= i < items.len() && items[i].id == id
}

/// Every item whose id is `id` gets the title `text`; all else stays.
pub open spec fn retitled(items: Seq<ItemModel>, id: u128, text: Seq<char>) -> Seq<ItemModel> {
    items.map_values(|it: ItemModel| if it.id == id { it.with_title(text) } else { it })
}

/// A single entry of the list.
pub struct Todo {
    title: String,
    description: String,
    id: u128,
    priority: i32,
}

impl View for Todo {
    type V = ItemModel;

    closed spec fn view(&self) -> ItemModel {
        ItemModel {
            id: self.id,
            title: self.title@,
            description: self.description@,
            priority: self.priority,
        }
    }
}

impl Todo {
    /// A new item with the default texts, carrying the id it is given.
    pub fn new(id: u128) -> (r: Todo)
        ensures
            r@ == ItemModel::fresh(id),
    {
        proof {
            reveal_strlit("New Todo");
            reveal_strlit("New Todo Description");
        }
        Todo {
            title: "New Todo".to_owned(),
            description: "New Todo Description".to_owned(),
            id,
            priority: 0,
        }
    }

    pub fn id(&self) -> (r: u128)
        ensures
            r == self@.id,
    {
        self.id
    }

    pub fn title(&self) -> (r: &str)
        ensures
            r@ == self@.title,
    {
        self.title.as_str()
    }

    pub fn description(&self) -> (r: &str)
        ensures
            r@ == self@.description,
    {
        self.description.as_str()
    }

    pub fn priority(&self) -> (r: i32)
        ensures
            r == self@.priority,
    {
        self.priority
    }
}

/// The ordered collection of items; insertion order is display order.
pub struct TodoStore {
    todos: Vec<Todo>,
}

impl View for TodoStore {
    type V = Seq<ItemModel>;

    closed spec fn view(&self) -> Seq<ItemModel> {
        self.todos@.map_values(|t: Todo| t@)
    }
}

impl TodoStore {
    /// The store is well formed when its ids are unique.
    pub open spec fn wf(&self) -> bool {
        ids_unique(self@)
    }

    pub fn new() -> (r: TodoStore)
        ensures
            r@ == Seq::<ItemModel>::empty(),
            r.wf(),
    {
        let r = TodoStore { todos: Vec::new() };
        assert(r@ =~= Seq::<ItemModel>::empty());
        r
    }

    pub fn len(&self) -> (r: usize)
        ensures
            r == self@.len(),
    {
        self.todos.len()
    }

    /// The item at `position`, if there is one.
    pub fn get(&self, position: usize) -> (r: Option<&Todo>)
        ensures
            match r {
                Some(t) => position < self@.len() && t@ == self@[position as int],
                None => position >= self@.len(),
            },
    {
        if position < self.todos.len() {
            Some(&self.todos[position])
        } else {
            None
        }
    }

    /// The id of the item at `position`, if there is one.
    pub fn id_at(&self, position: usize) -> (r: Option<u128>)
        ensures
            match r {
                Some(id) => position < self@.len() && id == self@[position as int].id,
                None => position >= self@.len(),
            },
    {
        if position < self.todos.len() {
            Some(self.todos[position].id)
        } else {
            None
        }
    }

    /// The first position that holds `id`.
    pub fn position_of(&self, id: u128) -> (r: Option<usize>)
        ensures
            match r {
                Some(p) => p < self@.len() && self@[p as int].id == id && forall|k: int|
                    0 <= k < p ==> self@[k].id != id,
                None => !contains_id(self@, id),
            },
    {
        let n = self.todos.len();
        let mut i: usize = 0;
        while i < n
            invariant
                n == self@.len(),
                i <= n,
                forall|k: int| 0 <= k < i ==> self@[k].id != id,
            decreases n - i,
        {
            if self.todos[i].id == id {
                return Some(i);
            }
            i += 1;
        }
        None
    }

    /// Appends a new item with the default texts under `id`, unless that id is
    /// already taken, in which case nothing changes.
    pub fn append_with_id(&mut self, id: u128) -> (added: bool)
        ensures
            added == !contains_id(old(self)@, id),
            added ==> final(self)@ == old(self)@.push(ItemModel::fresh(id)),
            !added ==> final(self)@ == old(self)@,
            old(self).wf() ==> final(self).wf(),
    {
        if self.position_of(id).is_some() {
            return false;
        }
        let t = Todo::new(id);
        self.todos.push(t);
        assert(self@ =~= old(self)@.push(ItemModel::fresh(id)));
        true
    }

    /// Appends a new item under a freshly generated id, which it returns.
    pub fn append(&mut self) -> (id: u128)
        ensures
            !contains_id(old(self)@, id),
            final(self)@ == old(self)@.push(ItemModel::fresh(id)),
            old(self).wf() ==> final(self).wf(),
    {
        let drawn = random_id();
        if self.append_with_id(drawn) {
            drawn
        } else {
            let id = self.unused_id();
            self.append_with_id(id);
            id
        }
    }

    /// Some id that no item carries.
    pub fn unused_id(&self) -> (r: u128)
        ensures
            !contains_id(self@, r),
    {
        let n = self.todos.len();
        let mut c: u128 = 0;
        while c <= n as u128
            invariant
                n == self@.len(),
                forall|k: int| 0 <= k < c ==> #[trigger] contains_id(self@, k as u128),
            decreases n + 1 - c,
        {
            if self.position_of(c).is_none() {
                return c;
            }
            c += 1;
        }
        proof {
            lemma_not_all_taken(self@);
        }
        0
    }

    /// Gives the title `text` to the item carrying `id`; without such an item
    /// nothing changes.
    pub fn set_title(&mut self, id: u128, text: &String)
        ensures
            final(self)@ == retitled(old(self)@, id, text@),
            old(self).wf() ==> final(self).wf(),
    {
        let n = self.todos.len();
        let mut i: usize = 0;
        while i < n
            invariant
                n == self@.len(),
                n == old(self)@.len(),
                i <= n,
                forall|k: int| 0 <= k < i ==> self@[k] == retitled(old(self)@, id, text@)[k],
                forall|k: int| i <= k < n ==> self@[k] == old(self)@[k],
            decreases n - i,
        {
            let ghost before = self.todos@;
            let ghost before_view = self@;
            if self.todos[i].id == id {
                self.todos[i].title = text.clone();
            }
            assert forall|k: int| 0 <= k < i implies self@[k] == retitled(
                old(self)@,
                id,
                text@,
            )[k] by {
                assert(self.todos@[k] == before[k]);
                assert(before_view[k] == before[k]@);
            }
            assert(self@[i as int] == retitled(old(self)@, id, text@)[i as int]);
            i += 1;
        }
        assert(self@ =~= retitled(old(self)@, id, text@));
    }
}

/// Among the ids `0..=items.len()` at least one is free.
proof fn lemma_not_all_taken(items: Seq<ItemModel>)
    requires
        items.len() <= usize::MAX,
    ensures
        exists|k: int| 0 <= k <= items.len() && !#[trigger] contains_id(items, k as u128),
{
    broadcast use vstd::seq_lib::seq_to_set_is_finite;

    let ids = items.map_values(|it: ItemModel| it.id as int);
    let taken = ids.to_set();
    let range = set_int_range(0, items.len() as int + 1);
    if forall|k: int| 0 <= k <= items.len() ==> #[trigger] contains_id(items, k as u128) {
        assert forall|k: int| range.contains(k) implies taken.contains(k) by {
            assert(contains_id(items, k as u128));
            let i = choose|i: int| 0 <= i < items.len() && items[i].id == k as u128;
            assert(ids[i] == k);
            assert(ids.contains(k));
        }
        lemma_int_range(0, items.len() as int + 1);
        ids.lemma_cardinality_of_set();
        lemma_len_subset(range, taken);
    }
}

/// Relies on uuid::Uuid::new_v4 for a random version 4 id, read as its 128-bit
/// value through Uuid::as_u128. Nothing is promised of the value.
#[verifier::external_body]
fn random_id() -> (r: u128) {
    uuid::Uuid::new_v4().as_u128()
}

} // verus!
