use vstd::prelude::*;

use crate::error::ShellError;
use crate::menu::{
    distinct_item_ids, menu_has_item, node_has_id, start_timer_title, stop_timer_title,
    toggle_timer_id, MenuItem, MenuItemView, MenuNode, MenuNodeView, TrayMenu,
};
use crate::text::str_eq;

verus! {

// ---------------------------------------------------------------------------
// What an update means, as a function on menu views.
// ---------------------------------------------------------------------------

/// The activation test applied to the updater's `mode` argument: exactly the
/// value `"activate"` activates; every other value deactivates.
pub open spec fn is_activate(mode: Seq<char>) -> bool {
    mode == "activate"@
}

/// The title the toggle-timer entry shows for a given activation.
pub open spec fn toggle_title(activate: bool) -> Seq<char> {
    if activate {
        stop_timer_title()
    } else {
        start_timer_title()
    }
}

/// `n` after an update addressed to `id`: the toggle-timer entry gets the
/// title for `activate` and keeps its checked flag; any other addressed entry
/// gets `activate` as its checked flag and keeps its title; entries with
/// other identifiers, and separators, are unchanged.
pub open spec fn updated_node(n: MenuNodeView, id: Seq<char>, activate: bool) -> MenuNodeView {
    match n {
        MenuNodeView::Separator => MenuNodeView::Separator,
        MenuNodeView::Item(it) => {
            if it.id == id {
                if id == toggle_timer_id() {
                    MenuNodeView::Item(
                        MenuItemView {
                            id: it.id,
                            title: toggle_title(activate),
                            selected: it.selected,
                        },
                    )
                } else {
                    MenuNodeView::Item(
                        MenuItemView { id: it.id, title: it.title, selected: activate },
                    )
                }
            } else {
                MenuNodeView::Item(it)
            }
        },
    }
}

/// The whole menu after an update addressed to `id`.
pub open spec fn updated_menu(m: Seq<MenuNodeView>, id: Seq<char>, activate: bool) -> Seq<
    MenuNodeView,
> {
    m.map_values(|n: MenuNodeView| updated_node(n, id, activate))
}

// ---------------------------------------------------------------------------
// Laws of the update.
// ---------------------------------------------------------------------------

/// An update keeps every entry's identifier in place.
pub proof fn lemma_update_keeps_ids(m: Seq<MenuNodeView>, id: Seq<char>, activate: bool)
    ensures
        updated_menu(m, id, activate).len() == m.len(),
        forall|i: int, x: Seq<char>|
            0 <= i < m.len() ==> (#[trigger] node_has_id(updated_menu(m, id, activate)[i], x)
                <==> node_has_id(m[i], x)),
{
}

/// An update addressed to any identifier keeps the menu well formed.
pub proof fn lemma_update_preserves_wf(m: Seq<MenuNodeView>, id: Seq<char>, activate: bool)
    requires
        distinct_item_ids(m),
    ensures
        distinct_item_ids(updated_menu(m, id, activate)),
{
    lemma_update_keeps_ids(m, id, activate);
}

/// Law: the update is idempotent. Applying the same update twice leaves the
/// very menu that applying it once leaves, so repeated identical calls
/// produce the same observable state.
pub proof fn lemma_update_idempotent(m: Seq<MenuNodeView>, id: Seq<char>, activate: bool)
    ensures
        updated_menu(updated_menu(m, id, activate), id, activate) == updated_menu(
            m,
            id,
            activate,
        ),
{
    let once = updated_menu(m, id, activate);
    let twice = updated_menu(once, id, activate);
    assert forall|i: int| 0 <= i < m.len() implies twice[i] == once[i] by {
        assert(once[i] == updated_node(m[i], id, activate));
    }
    assert(twice =~= once);
}

/// Law: after an update addressed to `id`, the addressed entry shows exactly
/// the decided state — the title for `activate` on the toggle-timer entry
/// (checked flag kept), the checked flag `activate` on every other entry
/// (title kept).
pub proof fn lemma_updated_entry_state(
    m: Seq<MenuNodeView>,
    id: Seq<char>,
    activate: bool,
    i: int,
)
    requires
        0 <= i < m.len(),
        node_has_id(m[i], id),
    ensures
        m[i] matches MenuNodeView::Item(prev) ==> {
            &&& updated_menu(m, id, activate)[i] matches MenuNodeView::Item(it)
            &&& it.id == id
            &&& (id == toggle_timer_id() ==> it.title == toggle_title(activate) && it.selected
                == prev.selected)
            &&& (id != toggle_timer_id() ==> it.selected == activate && it.title == prev.title)
        },
{
}

// ---------------------------------------------------------------------------
// The executable updater.
// ---------------------------------------------------------------------------

/// The mutation an update decided, ready to be applied to the real tray
/// handle by the runtime layer.
#[derive(Clone, Debug, PartialEq, Eq)]
pub enum MenuUpdate {
    /// Set the addressed entry's displayed title.
    SetTitle(String),
    /// Set the addressed entry's checked flag.
    SetSelected(bool),
}

impl TrayMenu {
    /// Carry out a front-end request on the menu model: `item_id` addresses
    /// an entry; `mode == "activate"` selects the active phrasing or checks
    /// the entry, any other `mode` the opposite. Returns the mutation to
    /// apply to the real tray handle, or `UnknownMenuItem` — with the menu
    /// unchanged — when no entry has the identifier `item_id`.
    pub fn set_menu_item_state(&mut self, item_id: &str, mode: &str) -> (r: Result<
        MenuUpdate,
        ShellError,
    >)
        ensures
            r is Ok <==> menu_has_item(old(self)@, item_id@),
            final(self)@ == updated_menu(old(self)@, item_id@, is_activate(mode@)),
            r is Err ==> r == Err::<MenuUpdate, ShellError>(ShellError::UnknownMenuItem)
                && final(self)@ == old(self)@,
            (r matches Ok(u) ==> match u {
                MenuUpdate::SetTitle(t) => item_id@ == toggle_timer_id() && t@ == toggle_title(
                    is_activate(mode@),
                ),
                MenuUpdate::SetSelected(b) => item_id@ != toggle_timer_id() && b == is_activate(
                    mode@,
                ),
            }),
            old(self).wf() ==> final(self).wf(),
    {
        let ghost gact = is_activate(mode@);
        let activate = str_eq(mode, "activate");
        let is_toggle = str_eq(item_id, "toggleTimer");
        let mut out: Vec<MenuNode> = Vec::new();
        let mut found = false;
        let n = self.nodes.len();
        let mut i: usize = 0;
        while i < n
            invariant
                i <= n,
                n == self.nodes.len(),
                *self == *old(self),
                activate == gact,
                gact == is_activate(mode@),
                is_toggle == (item_id@ == toggle_timer_id()),
                out@.len() == i,
                forall|j: int|
                    0 <= j < i ==> (#[trigger] out@[j])@ == updated_node(
                        self@[j],
                        item_id@,
                        gact,
                    ),
                found <==> exists|j: int| 0 <= j < i && node_has_id(self@[j], item_id@),
            decreases n - i,
        {
            match &self.nodes[i] {
                MenuNode::Separator => {
                    proof {
                        assert(!node_has_id(self@[i as int], item_id@));
                    }
                    out.push(MenuNode::Separator);
                },
                MenuNode::Item(it) => {
                    if str_eq(it.id.as_str(), item_id) {
                        proof {
                            assert(node_has_id(self@[i as int], item_id@));
                        }
                        found = true;
                        if is_toggle {
                            let title = if activate {
                                "Stop the timer".to_owned()
                            } else {
                                "Start the timer".to_owned()
                            };
                            out.push(
                                MenuNode::Item(
                                    MenuItem { id: it.id.clone(), title, selected: it.selected },
                                ),
                            );
                        } else {
                            out.push(
                                MenuNode::Item(
                                    MenuItem {
                                        id: it.id.clone(),
                                        title: it.title.clone(),
                                        selected: activate,
                                    },
                                ),
                            );
                        }
                    } else {
                        proof {
                            assert(!node_has_id(self@[i as int], item_id@));
                        }
                        out.push(
                            MenuNode::Item(
                                MenuItem {
                                    id: it.id.clone(),
                                    title: it.title.clone(),
                                    selected: it.selected,
                                },
                            ),
                        );
                    }
                },
            }
            i += 1;
        }
        self.nodes = out;
        proof {
            assert(self@ =~= updated_menu(old(self)@, item_id@, gact));
            if !found {
                assert forall|j: int| 0 <= j < old(self)@.len() implies updated_menu(
                    old(self)@,
                    item_id@,
                    gact,
                )[j] == old(self)@[j] by {
                    assert(!node_has_id(old(self)@[j], item_id@));
                }
                assert(updated_menu(old(self)@, item_id@, gact) =~= old(self)@);
            }
            if old(self).wf() {
                lemma_update_preserves_wf(old(self)@, item_id@, gact);
            }
        }
        if found {
            if is_toggle {
                let title = if activate {
                    "Stop the timer".to_owned()
                } else {
                    "Start the timer".to_owned()
                };
                Ok(MenuUpdate::SetTitle(title))
            } else {
                Ok(MenuUpdate::SetSelected(activate))
            }
        } else {
            Err(ShellError::UnknownMenuItem)
        }
    }
}

} // verus!
