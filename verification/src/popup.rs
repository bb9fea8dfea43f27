//! Popups and the windows that they belong to.

use vstd::prelude::*;
use crate::layout::Layout;
use crate::window::WindowId;

verus! {

/// A transient surface that is shown over the window of its parent.
#[derive(Clone, Copy, Debug, PartialEq, Eq, Structural)]
pub struct Popup {
    /// Handle of the client surface.
    pub id: WindowId,
    /// Surface that the client named as the parent, once it has named one.
    pub parent: Option<WindowId>,
    /// Window that the popup is shown over; unset while it is an orphan.
    pub toplevel: Option<WindowId>,
    /// Whether the client surface still exists.
    pub alive: bool,
}

/// What became of a popup when its surface was committed.
#[derive(Clone, Copy, Debug, PartialEq, Eq, Structural)]
pub enum Adoption {
    /// The surface is no orphan.
    NotOrphan,
    /// The orphan had named no parent and was dropped.
    Dropped,
    /// The orphan is now shown over the window of this surface.
    Adopted(WindowId),
    /// The parent of the orphan is not on the output: the popup is to be
    /// dismissed.
    Dismissed,
}

impl Popup {
    /// The orphan of a new popup surface.
    pub fn new(id: WindowId, parent: Option<WindowId>) -> (popup: Self)
        ensures
            popup == (Popup { id, parent, toplevel: None, alive: true }),
    {
        Popup { id, parent, toplevel: None, alive: true }
    }
}

/// Index of the first of `popups` that shows the surface `id`, searched
/// from `start` on.
pub open spec fn index_from(popups: Seq<Popup>, id: WindowId, start: int) -> Option<int>
    decreases popups.len() - start,
{
    if start < 0 || start >= popups.len() {
        None
    } else if popups[start].id == id {
        Some(start)
    } else {
        index_from(popups, id, start + 1)
    }
}

/// Index of the first of `popups` that shows the surface `id`.
pub open spec fn index_of(popups: Seq<Popup>, id: WindowId) -> Option<int> {
    index_from(popups, id, 0)
}

/// Whether `surface` belongs to the window of the surface `toplevel`: it is
/// that surface, or that of a popup that is shown over the window.
pub open spec fn belongs(popups: Seq<Popup>, toplevel: WindowId, surface: WindowId) -> bool {
    surface == toplevel || exists|i: int|
        0 <= i < popups.len() && (#[trigger] popups[i]).id == surface && popups[i].toplevel == Some(
            toplevel,
        )
}

/// The window of `layout` that an orphan with the parent `parent` is shown
/// over: the primary if the parent belongs to it, else the secondary if the
/// parent belongs to that.
pub open spec fn adopter(popups: Seq<Popup>, layout: Layout, parent: WindowId) -> Option<
    WindowId,
> {
    match layout.primary {
        Some(window) if belongs(popups, window.id, parent) => Some(window.id),
        _ => match layout.secondary {
            Some(window) if belongs(popups, window.id, parent) => Some(window.id),
            _ => None,
        },
    }
}

/// The popups that stay when dead popups are removed, and with them those
/// of windows that are gone; `kept` tells which windows there are.
pub open spec fn refreshed(popups: Seq<Popup>, kept: spec_fn(WindowId) -> bool) -> Seq<Popup>
    decreases popups.len(),
{
    if popups.len() == 0 {
        Seq::empty()
    } else {
        let rest = refreshed(popups.drop_last(), kept);
        let last = popups.last();
        if last.alive && (last.toplevel matches Some(toplevel) && kept(toplevel)) {
            rest.push(last)
        } else {
            rest
        }
    }
}

/// The popups after the surface `id` was destroyed.
pub open spec fn destroyed(popups: Seq<Popup>, id: WindowId) -> Seq<Popup> {
    Seq::new(
        popups.len(),
        |i: int|
            if popups[i].id == id {
                Popup { alive: false, ..popups[i] }
            } else {
                popups[i]
            },
    )
}

/// Finds the first popup that shows the surface `id`.
pub fn find(popups: &Vec<Popup>, id: WindowId) -> (index: Option<usize>)
    ensures
        match index {
            Some(index) => index_of(popups@, id) == Some(index as int) && index < popups@.len(),
            None => index_of(popups@, id).is_none(),
        },
{
    let mut i: usize = 0;
    while i < popups.len()
        invariant
            i <= popups@.len(),
            index_of(popups@, id) == index_from(popups@, id, i as int),
        decreases popups@.len() - i,
    {
        if popups[i].id == id {
            return Some(i);
        }
        i += 1;
    }
    None
}

/// Tells whether `surface` belongs to the window of the surface
/// `toplevel`.
pub fn owns(popups: &Vec<Popup>, toplevel: WindowId, surface: WindowId) -> (owned: bool)
    ensures
        owned == belongs(popups@, toplevel, surface),
{
    if surface == toplevel {
        return true;
    }
    let mut i: usize = 0;
    while i < popups.len()
        invariant
            i <= popups@.len(),
            forall|j: int|
                0 <= j < i ==> !((#[trigger] popups@[j]).id == surface && popups@[j].toplevel == Some(
                    toplevel,
                )),
        decreases popups@.len() - i,
    {
        let popup = popups[i];
        if popup.id == surface && popup.toplevel == Some(toplevel) {
            return true;
        }
        i += 1;
    }
    false
}

/// Marks the popups that show the surface `id` dead.
pub fn destroy(popups: &mut Vec<Popup>, id: WindowId)
    ensures
        final(popups)@ == destroyed(old(popups)@, id),
{
    let count: usize = popups.len();
    let mut i: usize = 0;
    while i < count
        invariant
            i <= count,
            count == popups@.len(),
            count == old(popups)@.len(),
            forall|j: int| 0 <= j < i ==> popups@[j] == destroyed(old(popups)@, id)[j],
            forall|j: int| i <= j < count ==> popups@[j] == old(popups)@[j],
        decreases count - i,
    {
        if popups[i].id == id {
            let mut popup = popups[i];
            popup.alive = false;
            popups[i] = popup;
        }
        i += 1;
    }
    assert(popups@ =~= destroyed(old(popups)@, id));
}

} // verus!
