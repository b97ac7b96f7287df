//! Properties of the session's transitions, proved over the model.
use vstd::prelude::*;
use crate::session::{AppModel, EditMode};
use crate::store::contains_id;

verus! {

/// Every transition keeps the session well formed; in particular an item is
/// under edit only while it is the selected item.
pub proof fn lemma_transitions_keep_invariant(m: AppModel, id: u128, text: Seq<char>)
    requires
        m.wf(),
    ensures
        m.moved_up().wf(),
        m.moved_down().wf(),
        m.edit_begun().wf(),
        m.text_edited(text).wf(),
        m.committed(text).wf(),
        m.edit_finished().wf(),
        m.activated(id).wf(),
        !contains_id(m.items, id) ==> m.appended(id).wf(),
        m.settled().wf(),
{
}

/// Moving up from the first item, or on an empty list with nothing selected,
/// changes nothing.
pub proof fn lemma_move_up_at_top_is_noop(m: AppModel)
    requires
        m.wf(),
        m.selected == Some(0int) || (m.selected is None && m.len() == 0),
    ensures
        m.moved_up() == m,
{
}

/// Moving down never passes the last item, and stays put on it.
pub proof fn lemma_move_down_is_capped(m: AppModel)
    requires
        m.wf(),
        m.len() > 0,
    ensures
        m.moved_down().selected is Some,
        0 <= m.moved_down().selected->0 < m.len(),
        m.selected == Some(m.len() - 1) ==> m.moved_down() == m,
{
}

/// On an empty list neither move selects anything.
pub proof fn lemma_moves_on_empty_select_nothing(m: AppModel)
    requires
        m.wf(),
        m.len() == 0,
    ensures
        m.moved_up().selected is None,
        m.moved_down().selected is None,
{
}

/// Moving down off the item under edit ends edit mode, selects the next item
/// and leaves every title as it was.
pub proof fn lemma_moving_off_ends_edit(m: AppModel, p: int)
    requires
        m.wf(),
        m.mode is Editing,
        m.selected == Some(p),
        p + 1 < m.len(),
    ensures
        m.moved_down() == (AppModel { items: m.items, selected: Some(p + 1), mode: EditMode::Idle }),
{
    assert(m.items[p + 1].id != m.items[p].id);
}

/// A commit writes the text into the item under edit, touches no other item
/// and ends edit mode.
pub proof fn lemma_commit_writes_title(m: AppModel, text: Seq<char>)
    requires
        m.wf(),
        m.mode is Editing,
    ensures
        m.committed(text).mode == EditMode::Idle,
        m.committed(text).selected == m.selected,
        m.committed(text).len() == m.len(),
        m.committed(text).items[m.selected->0] == m.items[m.selected->0].with_title(text),
        forall|k: int|
            0 <= k < m.len() && k != m.selected->0 ==> #[trigger] m.committed(text).items[k]
                == m.items[k],
{
}

/// Beginning an edit of the selected item and committing its own title leaves
/// the list as it was, and the session idle.
pub proof fn lemma_edit_round_trip(m: AppModel)
    requires
        m.wf(),
        m.selected is Some,
    ensures
        m.edit_begun().committed(m.items[m.selected->0].title) == m.edit_finished(),
        m.edit_begun().committed(m.items[m.selected->0].title).items == m.items,
{
    let p = m.selected->0;
    let after = m.edit_begun().committed(m.items[p].title);
    assert(after.items =~= m.items) by {
        assert forall|k: int| 0 <= k < m.len() implies after.items[k] == m.items[k] by {
            if k != p {
                assert(m.items[k].id != m.items[p].id);
            }
        }
    }
}

} // verus!
