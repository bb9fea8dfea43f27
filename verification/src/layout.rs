//! Window workspace layout.

use vstd::prelude::*;
use crate::drawing::Element;
use crate::geometry::Rectangle;
use crate::output::Output;
use crate::overview::{clamp_i64, OFFSET_UNIT};
use crate::transaction::{armed, TransactionClock};
use crate::window::{Window, WindowChange, WindowId};

verus! {

/// Reference to a specific window in a layout.
#[derive(Copy, Clone, Debug, PartialEq, Eq, Structural)]
pub struct LayoutPosition {
    pub index: usize,
    pub secondary: bool,
}

impl LayoutPosition {
    pub fn new(index: usize, secondary: bool) -> (position: Self)
        ensures
            position == (LayoutPosition { index, secondary }),
    {
        Self { index, secondary }
    }
}

/// Workspace window layout: up to two windows that share the output.
#[derive(Clone, Copy, Debug, PartialEq, Eq, Structural)]
pub struct Layout {
    pub primary: Option<Window>,
    pub secondary: Option<Window>,
}

/// Transactional layout change.
#[derive(Clone, Copy, Debug, PartialEq, Eq, Structural)]
pub enum Transaction {
    /// Show another layout, or none.
    Active(Option<usize>),
    /// Show the window that was at a position when the change was staged
    /// as primary.
    Primary(LayoutPosition, WindowId),
    /// Show the window that was at a position when the change was staged
    /// as secondary of the active layout.
    Secondary(LayoutPosition, WindowId),
}

impl Layout {
    /// The layout without windows.
    pub open spec fn empty() -> Layout {
        Layout { primary: None, secondary: None }
    }

    /// The layout that holds `primary` alone.
    pub open spec fn spec_new(primary: Window) -> Layout {
        Layout { primary: Some(primary), secondary: None }
    }

    /// The layout that holds `primary` alone.
    #[verifier::when_used_as_spec(spec_new)]
    pub fn new(primary: Window) -> (layout: Self)
        ensures
            layout == Layout::spec_new(primary),
    {
        Self { primary: Some(primary), secondary: None }
    }

    /// The window in one of the two slots.
    pub open spec fn slot(self, secondary: bool) -> Option<Window> {
        if secondary {
            self.secondary
        } else {
            self.primary
        }
    }

    /// The layout with one of the two slots replaced.
    pub open spec fn with_slot(self, secondary: bool, window: Option<Window>) -> Layout {
        if secondary {
            Layout { secondary: window, ..self }
        } else {
            Layout { primary: window, ..self }
        }
    }

    /// Number of windows in the layout.
    pub open spec fn spec_window_count(&self) -> usize {
        if self.primary.is_some() && self.secondary.is_some() {
            2
        } else if self.primary.is_some() || self.secondary.is_some() {
            1
        } else {
            0
        }
    }

    /// The layout after its windows were told that they left the output.
    pub open spec fn left(self) -> Layout {
        Layout {
            primary: match self.primary {
                Some(window) => Some(window.left()),
                None => None,
            },
            secondary: match self.secondary {
                Some(window) => Some(window.left()),
                None => None,
            },
        }
    }

    /// The layout after the surface `id` was destroyed: a window that shows
    /// it is dead, and the window beside it is asked to fill `full`.
    pub open spec fn reaped(self, id: WindowId, full: Rectangle) -> Layout {
        let primary_hit = self.primary matches Some(window) && window.id == id;
        let secondary_hit = self.secondary matches Some(window) && window.id == id;
        Layout {
            primary: match self.primary {
                Some(window) => Some(
                    if primary_hit {
                        window.dead()
                    } else if secondary_hit {
                        window.resized(full)
                    } else {
                        window
                    },
                ),
                None => None,
            },
            secondary: match self.secondary {
                Some(window) => Some(
                    if primary_hit {
                        if secondary_hit {
                            window.resized(full).dead()
                        } else {
                            window.resized(full)
                        }
                    } else if secondary_hit {
                        window.dead()
                    } else {
                        window
                    },
                ),
                None => None,
            },
        }
    }

    /// The layout after `change` happened to the windows that show the
    /// surface `id`.
    pub open spec fn changed(self, id: WindowId, change: WindowChange) -> Layout {
        Layout {
            primary: match self.primary {
                Some(window) if window.id == id => Some(window.changed(change)),
                other => other,
            },
            secondary: match self.secondary {
                Some(window) if window.id == id => Some(window.changed(change)),
                other => other,
            },
        }
    }

    /// Whether a window of the layout shows the surface `id`.
    pub open spec fn shows(self, id: WindowId) -> bool {
        ||| self.primary matches Some(window) && window.id == id
        ||| self.secondary matches Some(window) && window.id == id
    }

    /// The layout after each window was asked for the geometry of its slot:
    /// the primary shares the output only with a secondary that is alive.
    pub open spec fn resized(self, output: Output) -> Layout {
        let shared = self.secondary matches Some(window) && window.alive;
        Layout {
            primary: match self.primary {
                Some(window) => Some(window.resized(output.spec_primary_rectangle(shared))),
                None => None,
            },
            secondary: match self.secondary {
                Some(window) => Some(window.resized(output.spec_secondary_rectangle())),
                None => None,
            },
        }
    }

    /// The layout once a transaction is over: dead windows are gone, the
    /// pending geometry of the others is in effect, and a window without a
    /// primary beside it is the primary.
    pub open spec fn settled(self) -> Layout {
        let primary = match self.primary {
            Some(window) if window.alive => Some(window.applied()),
            _ => None,
        };
        let secondary = match self.secondary {
            Some(window) if window.alive => Some(window.applied()),
            _ => None,
        };
        if primary.is_some() {
            Layout { primary, secondary }
        } else {
            Layout { primary: secondary, secondary: None }
        }
    }

    /// Whether no window of the layout holds up the transaction.
    pub open spec fn spec_transaction_done(&self) -> bool {
        &&& self.primary matches Some(window) ==> window.spec_transaction_done()
        &&& self.secondary matches Some(window) ==> window.spec_transaction_done()
    }

    /// Whether a window of the layout changed since it was last drawn.
    pub open spec fn spec_dirty(&self) -> bool {
        ||| self.primary matches Some(window) && window.dirty
        ||| self.secondary matches Some(window) && window.dirty
    }

    /// The windows of the layout, the primary first.
    pub open spec fn spec_windows(&self) -> Seq<Window> {
        match (self.primary, self.secondary) {
            (Some(primary), Some(secondary)) => seq![primary, secondary],
            (Some(primary), None) => seq![primary],
            (None, Some(secondary)) => seq![secondary],
            (None, None) => Seq::empty(),
        }
    }

    /// Whether no window of the layout holds up the transaction.
    #[verifier::when_used_as_spec(spec_transaction_done)]
    pub fn transaction_done(&self) -> (done: bool)
        ensures
            done == self.spec_transaction_done(),
    {
        let primary = match self.primary {
            Some(window) => window.transaction_done(),
            None => true,
        };
        let secondary = match self.secondary {
            Some(window) => window.transaction_done(),
            None => true,
        };
        primary && secondary
    }

    /// Whether a window of the layout changed since it was last drawn.
    #[verifier::when_used_as_spec(spec_dirty)]
    pub fn dirty(&self) -> (dirty: bool)
        ensures
            dirty == self.spec_dirty(),
    {
        let primary = match self.primary {
            Some(window) => window.dirty(),
            None => false,
        };
        let secondary = match self.secondary {
            Some(window) => window.dirty(),
            None => false,
        };
        primary || secondary
    }

    /// Get layout's primary window.
    pub fn primary(&self) -> (window: Option<Window>)
        ensures
            window == self.primary,
    {
        self.primary
    }

    /// Get layout's secondary window.
    pub fn secondary(&self) -> (window: Option<Window>)
        ensures
            window == self.secondary,
    {
        self.secondary
    }

    /// Get number of visible windows.
    #[verifier::when_used_as_spec(spec_window_count)]
    pub fn window_count(&self) -> (count: usize)
        ensures
            count == self.spec_window_count(),
    {
        let primary_count: usize = if self.primary.is_some() { 1 } else { 0 };
        let secondary_count: usize = if self.secondary.is_some() { 1 } else { 0 };
        primary_count + secondary_count
    }
}

/// The surface that the window in one of the two slots of `layout` shows.
pub open spec fn slot_id(layout: Layout, secondary: bool) -> Option<WindowId> {
    match layout.slot(secondary) {
        Some(window) => Some(window.id),
        None => None,
    }
}

/// Whether no two slots of `layouts` hold windows that show the same
/// surface: the surface is the identity of a window.
pub open spec fn distinct_slots(layouts: Seq<Layout>) -> bool {
    forall|i: int, a: bool, j: int, b: bool|
        0 <= i < layouts.len() && 0 <= j < layouts.len() && !(i == j && a == b) && (
        #[trigger] slot_id(layouts[i], a)).is_some() ==> slot_id(layouts[i], a) != #[trigger] slot_id(
            layouts[j],
            b,
        )
}

/// Whether the slots of `after` hold windows of the same surfaces as those
/// of `before`, slot by slot.
pub open spec fn same_surfaces(before: Seq<Layout>, after: Seq<Layout>) -> bool {
    &&& before.len() == after.len()
    &&& forall|i: int, a: bool|
        0 <= i < before.len() ==> #[trigger] slot_id(after[i], a) == slot_id(before[i], a)
}

/// Whether a slot of `layouts` holds a window that shows the surface `id`.
pub open spec fn held(layouts: Seq<Layout>, id: WindowId) -> bool {
    exists|i: int, a: bool| 0 <= i < layouts.len() && #[trigger] slot_id(layouts[i], a) == Some(id)
}

/// The layouts that survive the end of a transaction, each settled, in
/// their old order.
pub open spec fn retained(layouts: Seq<Layout>) -> Seq<Layout>
    decreases layouts.len(),
{
    if layouts.len() == 0 {
        Seq::empty()
    } else {
        let rest = retained(layouts.drop_last());
        let last = layouts.last().settled();
        if last.primary.is_some() {
            rest.push(last)
        } else {
            rest
        }
    }
}

/// Index that is `n` layouts away from `active` among `count` layouts,
/// wrapping at both ends. With no layout active the first step leads to the
/// first layout.
pub open spec fn cycle_target(active: Option<usize>, n: int, count: int) -> int {
    match active {
        Some(index) => (index + n) % count,
        None => if n > 0 {
            (n - 1) % count
        } else if n < 0 {
            (n + 1) % count
        } else {
            0
        },
    }
}

/// What the layouts hold, as far as contracts are concerned.
pub struct LayoutsView {
    /// Window that has the focus.
    pub focus: Option<WindowId>,
    /// Changes that were staged and are not applied yet, oldest first.
    pub transactions: Seq<Transaction>,
    /// Index of the layout on the output.
    pub active_layout: Option<usize>,
    /// All layouts, in the order of their creation.
    pub layouts: Seq<Layout>,
}

impl LayoutsView {
    /// The active index points at a layout.
    pub open spec fn indexed(self) -> bool {
        self.active_layout matches Some(index) ==> index < self.layouts.len()
    }

    /// Every layout has a primary window.
    pub open spec fn occupied(self) -> bool {
        forall|i: int| 0 <= i < self.layouts.len() ==> (#[trigger] self.layouts[i]).primary.is_some()
    }

    /// No two slots hold windows that show the same surface.
    pub open spec fn distinct(self) -> bool {
        distinct_slots(self.layouts)
    }

    /// What holds of the layouts between any two calls.
    pub open spec fn wf(self) -> bool {
        self.indexed() && self.occupied()
    }

    /// The layout at `index`, if there is one.
    pub open spec fn get(self, index: usize) -> Option<Layout> {
        if index < self.layouts.len() {
            Some(self.layouts[index as int])
        } else {
            None
        }
    }

    /// The layout on the output; without one, the empty layout.
    pub open spec fn active(self) -> Layout {
        match self.active_layout {
            Some(index) if index < self.layouts.len() => self.layouts[index as int],
            _ => Layout::empty(),
        }
    }

    /// The window at `position`, if there is one.
    pub open spec fn window_at(self, position: LayoutPosition) -> Option<Window> {
        if position.index < self.layouts.len() {
            self.layouts[position.index as int].slot(position.secondary)
        } else {
            None
        }
    }

    /// The layouts with the window at an occupied `position` replaced.
    pub open spec fn with_window(self, position: LayoutPosition, window: Window) -> LayoutsView {
        if self.window_at(position).is_some() {
            LayoutsView {
                layouts: self.layouts.update(
                    position.index as int,
                    self.layouts[position.index as int].with_slot(position.secondary, Some(window)),
                ),
                ..self
            }
        } else {
            self
        }
    }

    /// The layouts after `rectangle` was requested for the window at
    /// `position`, if there is one.
    pub open spec fn resize(self, position: LayoutPosition, rectangle: Rectangle) -> LayoutsView {
        match self.window_at(position) {
            Some(window) => self.with_window(position, window.resized(rectangle)),
            None => self,
        }
    }

    /// The layouts after the window at `position`, if there is one, was
    /// told that it is on the output and was given the focus.
    pub open spec fn enter(self, position: LayoutPosition) -> LayoutsView {
        match self.window_at(position) {
            Some(window) => LayoutsView {
                focus: Some(window.id),
                ..self.with_window(position, window.entered())
            },
            None => self,
        }
    }

    /// The layouts with one more staged change.
    pub open spec fn stage(self, transaction: Transaction) -> LayoutsView {
        LayoutsView { transactions: self.transactions.push(transaction), ..self }
    }

    /// The layouts after the windows of the active layout were told that
    /// they left the output.
    pub open spec fn leave_active(self) -> LayoutsView {
        match self.active_layout {
            Some(index) if index < self.layouts.len() => LayoutsView {
                layouts: self.layouts.update(index as int, self.layouts[index as int].left()),
                ..self
            },
            _ => self,
        }
    }

    /// The layouts after a switch to the layout at `index` was staged: its
    /// windows are told at once that they are on the output, and the focus
    /// goes to its primary, else to its secondary, else to nobody.
    pub open spec fn set_active(self, index: Option<usize>) -> LayoutsView {
        let unfocused = LayoutsView { focus: None, ..self };
        let entered = match index {
            Some(index) => unfocused.enter(LayoutPosition { index, secondary: true }).enter(
                LayoutPosition { index, secondary: false },
            ),
            None => unfocused,
        };
        entered.stage(Transaction::Active(index))
    }

    /// The layouts after a new layout for `primary` was created and staged
    /// as the active one. A window whose surface a window shows already is
    /// not taken: a surface has one window.
    pub open spec fn create(self, output: Output, primary: Window) -> LayoutsView {
        if self.position(primary.id).is_some() {
            self
        } else {
            LayoutsView {
                layouts: self.layouts.push(
                    Layout::spec_new(primary.resized(output.spec_primary_rectangle(false))),
                ),
                ..self
            }.set_active(Some(self.layouts.len() as usize))
        }
    }

    /// The layouts with the window at `position` replaced by `window`, if
    /// the two show the same surface.
    pub open spec fn replace(self, position: LayoutPosition, window: Window) -> LayoutsView {
        if self.shows(position, window.id) {
            self.with_window(position, window)
        } else {
            self
        }
    }

    /// The layouts after a step of `n` layouts from the active one was
    /// staged. Without layouts there is nowhere to go.
    pub open spec fn cycle_active(self, n: isize) -> LayoutsView {
        if self.layouts.len() == 0 {
            self
        } else {
            self.set_active(
                Some(cycle_target(self.active_layout, n as int, self.layouts.len() as int) as usize),
            )
        }
    }

    /// The layouts after the window at `position`, if there is one, was
    /// told that it is on the output and was staged as primary. The change
    /// is staged for that window: it lapses if the window has left the
    /// position by the time the change is applied.
    pub open spec fn stage_primary(self, position: LayoutPosition) -> LayoutsView {
        match self.window_at(position) {
            Some(window) => self.enter(position).stage(Transaction::Primary(position, window.id)),
            None => self,
        }
    }

    /// The layouts after the window at `position`, if there is one, was
    /// told that it is on the output and was staged as secondary of the
    /// active layout. The change is staged for that window.
    pub open spec fn stage_secondary(self, position: LayoutPosition) -> LayoutsView {
        match self.window_at(position) {
            Some(window) => self.enter(position).stage(Transaction::Secondary(position, window.id)),
            None => self,
        }
    }

    /// The layouts after the window at `position` was staged as primary.
    ///
    /// A window that is alone in its layout needs no resize: its layout is
    /// staged as the active one. Otherwise the two windows of its layout
    /// will part, so both are asked to fill the output.
    pub open spec fn set_primary(self, output: Output, position: LayoutPosition) -> LayoutsView {
        let full = output.spec_primary_rectangle(false);
        if position.index >= self.layouts.len() {
            self
        } else if self.layouts[position.index as int].secondary.is_none() {
            self.set_active(Some(position.index))
        } else {
            self.resize(LayoutPosition { index: position.index, secondary: false }, full).resize(
                LayoutPosition { index: position.index, secondary: true },
                full,
            ).stage_primary(position)
        }
    }

    /// The layouts after the window at `position` was staged as secondary
    /// of the active layout.
    ///
    /// Without an active primary the window is staged as primary instead.
    /// Otherwise the active primary is asked to make room, the secondary
    /// that it displaces and the window that stays behind in the old layout
    /// are asked to fill the output, and the window itself is asked for the
    /// secondary's place unless it is a secondary already.
    pub open spec fn set_secondary(self, output: Output, position: LayoutPosition) -> LayoutsView {
        let full = output.spec_primary_rectangle(false);
        if position.index >= self.layouts.len() {
            self
        } else if self.active().primary.is_none() {
            self.set_primary(output, position)
        } else {
            let active = self.active_layout.unwrap();
            let shared = self.resize(
                LayoutPosition { index: active, secondary: false },
                output.spec_primary_rectangle(true),
            ).resize(LayoutPosition { index: active, secondary: true }, full);
            let placed = if position.secondary {
                shared
            } else {
                shared.resize(position, output.spec_secondary_rectangle())
            };
            placed.resize(
                LayoutPosition { index: position.index, secondary: !position.secondary },
                full,
            ).stage_secondary(position)
        }
    }

    /// The layouts after every window was asked for the geometry of its
    /// slot.
    pub open spec fn resize_all(self, output: Output) -> LayoutsView {
        LayoutsView {
            layouts: Seq::new(self.layouts.len(), |i: int| self.layouts[i].resized(output)),
            ..self
        }
    }

    /// The layouts after the surface `id` was destroyed.
    pub open spec fn reap(self, output: Output, id: WindowId) -> LayoutsView {
        LayoutsView {
            layouts: Seq::new(
                self.layouts.len(),
                |i: int| self.layouts[i].reaped(id, output.spec_primary_rectangle(false)),
            ),
            ..self
        }
    }

    /// The layouts after a staged switch of the active layout took effect.
    ///
    /// A switch to the layout that is active already, or to one that does
    /// not exist any more, changes nothing.
    pub open spec fn apply_active(self, target: Option<usize>) -> LayoutsView {
        if target == self.active_layout {
            self
        } else if target matches Some(index) && index >= self.layouts.len() {
            self
        } else {
            LayoutsView { active_layout: target, ..self.leave_active() }
        }
    }

    /// The layouts after a staged change of the primary took effect.
    ///
    /// If the position does not hold the window `id` any more, for which
    /// the change was staged, or if that window has died, nothing changes.
    /// Else the secondary of its layout moves to a new layout at the end,
    /// and the layout with the new primary becomes the active one.
    pub open spec fn apply_primary(self, position: LayoutPosition, id: WindowId) -> LayoutsView {
        if !self.still_holds(position, id) {
            self
        } else {
            let layout = self.layouts[position.index as int];
            let split = match layout.secondary {
                Some(window) => self.layouts.update(
                    position.index as int,
                    Layout { secondary: None, ..layout },
                ).push(Layout::spec_new(window)),
                None => self.layouts,
            };
            LayoutsView {
                active_layout: Some(
                    if position.secondary {
                        (split.len() - 1) as usize
                    } else {
                        position.index
                    },
                ),
                ..LayoutsView { layouts: split, ..self }.leave_active()
            }
        }
    }

    /// The layouts after a staged change of the secondary took effect.
    ///
    /// If the position does not hold the window `id` any more, for which
    /// the change was staged, or if that window has died, nothing changes.
    /// Else the window leaves its layout, where a secondary that stays behind becomes the
    /// primary, and takes the place of the active layout's secondary, which
    /// moves to a new layout at the end. Without an active layout, a window
    /// that is alone stays where it is and its layout becomes the active
    /// one; any other window gets a new active layout.
    pub open spec fn apply_secondary(self, position: LayoutPosition, id: WindowId) -> LayoutsView {
        if !self.still_holds(position, id) {
            self
        } else {
            let layout = self.layouts[position.index as int];
            let moved = layout.slot(position.secondary);
            let stays = if position.secondary {
                Layout { secondary: None, ..layout }
            } else {
                Layout {
                    primary: match layout.secondary {
                        Some(window) => Some(window.left()),
                        None => None,
                    },
                    secondary: None,
                }
            };
            let parted = self.layouts.update(position.index as int, stays);
            match self.active_layout {
                Some(index) if index < self.layouts.len() => {
                    let active = parted[index as int];
                    let joined = parted.update(index as int, Layout { secondary: moved, ..active });
                    LayoutsView {
                        layouts: match active.secondary {
                            Some(window) => joined.push(Layout::spec_new(window)),
                            None => joined,
                        },
                        ..self
                    }
                },
                _ => if stays.primary.is_none() {
                    LayoutsView { active_layout: Some(position.index), ..self }
                } else {
                    LayoutsView {
                        active_layout: Some(parted.len() as usize),
                        layouts: parted.push(Layout { primary: None, secondary: moved }),
                        ..self
                    }
                },
            }
        }
    }

    /// The layouts after one staged change took effect.
    pub open spec fn apply_change(self, transaction: Transaction) -> LayoutsView {
        match transaction {
            Transaction::Active(target) => self.apply_active(target),
            Transaction::Primary(position, id) => self.apply_primary(position, id),
            Transaction::Secondary(position, id) => self.apply_secondary(position, id),
        }
    }

    /// The layouts after `changes` took effect, oldest first.
    pub open spec fn apply_changes(self, changes: Seq<Transaction>) -> LayoutsView
        decreases changes.len(),
    {
        if changes.len() == 0 {
            self
        } else {
            self.apply_changes(changes.drop_last()).apply_change(changes.last())
        }
    }

    /// The layouts once dead windows and the layouts that they leave empty
    /// are gone: the active index follows its layout, and is cleared if the
    /// layout is gone.
    pub open spec fn settle(self) -> LayoutsView {
        LayoutsView {
            focus: self.focus,
            transactions: Seq::empty(),
            active_layout: match self.active_layout {
                Some(index) if index < self.layouts.len()
                    && self.layouts[index as int].settled().primary.is_some() => Some(
                    retained(self.layouts.take(index as int)).len() as usize,
                ),
                _ => None,
            },
            layouts: retained(self.layouts),
        }
    }

    /// The layouts after all staged changes took effect.
    pub open spec fn apply_transaction(self) -> LayoutsView {
        self.apply_changes(self.transactions).settle()
    }

    /// The layouts after `change` happened to the windows that show the
    /// surface `id`.
    pub open spec fn change(self, id: WindowId, change: WindowChange) -> LayoutsView {
        LayoutsView {
            layouts: Seq::new(self.layouts.len(), |i: int| self.layouts[i].changed(id, change)),
            ..self
        }
    }

    /// Whether a window in the first `count` layouts shows the surface
    /// `id`.
    pub open spec fn shown_within(self, id: WindowId, count: int) -> bool {
        exists|i: int| 0 <= i < count && i < self.layouts.len() && (#[trigger] self.layouts[i]).shows(id)
    }

    /// Position of the first window that shows the surface `id`, searched
    /// from the layout at `start` on; in a layout the primary comes first.
    pub open spec fn position_from(self, id: WindowId, start: int) -> Option<LayoutPosition>
        decreases self.layouts.len() - start,
    {
        if start < 0 || start >= self.layouts.len() {
            None
        } else if self.layouts[start].primary matches Some(window) && window.id == id {
            Some(LayoutPosition { index: start as usize, secondary: false })
        } else if self.layouts[start].secondary matches Some(window) && window.id == id {
            Some(LayoutPosition { index: start as usize, secondary: true })
        } else {
            self.position_from(id, start + 1)
        }
    }

    /// Position of the first window that shows the surface `id`.
    pub open spec fn position(self, id: WindowId) -> Option<LayoutPosition> {
        self.position_from(id, 0)
    }

    /// Whether a staged change of the window `id` at `position` is still
    /// valid: the position holds that window, and the window is alive.
    pub open spec fn still_holds(self, position: LayoutPosition, id: WindowId) -> bool {
        self.window_at(position) matches Some(window) && window.id == id && window.alive
    }

    /// Whether the window at `position` shows the surface `id`.
    pub open spec fn shows(self, position: LayoutPosition, id: WindowId) -> bool {
        self.window_at(position) matches Some(window) && window.id == id
    }

    /// Whether any window shows the surface `id`.
    pub open spec fn holds(self, id: WindowId) -> bool {
        exists|position: LayoutPosition| self.shows(position, id)
    }

    /// Whether no window holds up the transaction.
    pub open spec fn transaction_done(self) -> bool {
        forall|i: int|
            0 <= i < self.layouts.len() ==> (#[trigger] self.layouts[i]).spec_transaction_done()
    }

    /// Whether any window changed since it was last drawn.
    pub open spec fn dirty(self) -> bool {
        exists|i: int| 0 <= i < self.layouts.len() && (#[trigger] self.layouts[i]).spec_dirty()
    }

    /// All windows: layout by layout, the primary first.
    pub open spec fn windows(self) -> Seq<Window> {
        all_windows(self.layouts)
    }

    /// Overview offset of the active layout.
    pub open spec fn active_offset(self) -> i64 {
        match self.active_layout {
            Some(index) => clamp_i64(-(index * OFFSET_UNIT)),
            None => 0,
        }
    }

    /// The elements that draw the windows on the output: the secondary of
    /// the active layout first, then its primary.
    pub open spec fn textures(self) -> Seq<Element> {
        let active = self.active();
        (match active.secondary {
            Some(window) => seq![Element::spec_plain(window)],
            None => Seq::empty(),
        }) + (match active.primary {
            Some(window) => seq![Element::spec_plain(window)],
            None => Seq::empty(),
        })
    }

    /// The windows on the output: the primary of the active layout first,
    /// then its secondary.
    pub open spec fn visible(self) -> Seq<Window> {
        self.active().spec_windows()
    }

    /// Whether any layout has a window.
    pub open spec fn populated(self) -> bool {
        exists|i: int| 0 <= i < self.layouts.len() && (#[trigger] self.layouts[i]).spec_window_count() > 0
    }
}

/// The windows of `layouts`: layout by layout, the primary first.
pub open spec fn all_windows(layouts: Seq<Layout>) -> Seq<Window>
    decreases layouts.len(),
{
    if layouts.len() == 0 {
        Seq::empty()
    } else {
        all_windows(layouts.drop_last()) + layouts.last().spec_windows()
    }
}

/// Whether position `a` comes before position `b` when the layouts are
/// searched: by index, and in a layout the primary first.
pub open spec fn precedes(a: LayoutPosition, b: LayoutPosition) -> bool {
    a.index < b.index || (a.index == b.index && !a.secondary && b.secondary)
}

/// Active workspaces.
#[derive(Debug)]
pub struct Layouts {
    focus: Option<WindowId>,
    transactions: Vec<Transaction>,
    active_layout: Option<usize>,
    layouts: Vec<Layout>,
}

impl View for Layouts {
    type V = LayoutsView;

    closed spec fn view(&self) -> LayoutsView {
        LayoutsView {
            focus: self.focus,
            transactions: self.transactions@,
            active_layout: self.active_layout,
            layouts: self.layouts@,
        }
    }
}

impl Layout {
    /// Tells the windows of the layout that they left the output.
    fn leave(&mut self)
        ensures
            *final(self) == old(self).left(),
    {
        match self.primary {
            Some(mut window) => {
                window.leave();
                self.primary = Some(window);
            },
            None => {},
        }
        match self.secondary {
            Some(mut window) => {
                window.leave();
                self.secondary = Some(window);
            },
            None => {},
        }
    }

    /// Ends a transaction for the windows of the layout.
    fn settle(&mut self)
        ensures
            *final(self) == old(self).settled(),
    {
        let mut secondary: Option<Window> = None;
        match self.secondary {
            Some(mut window) => {
                if window.alive() {
                    window.apply_transaction();
                    secondary = Some(window);
                }
            },
            None => {},
        }
        let mut primary: Option<Window> = None;
        match self.primary {
            Some(mut window) => {
                if window.alive() {
                    window.apply_transaction();
                    primary = Some(window);
                }
            },
            None => {},
        }
        if primary.is_some() {
            self.primary = primary;
            self.secondary = secondary;
        } else {
            self.primary = secondary;
            self.secondary = None;
        }
    }
}

impl Layouts {
    /// No layouts, no focus and nothing staged.
    pub fn new() -> (layouts: Self)
        ensures
            layouts@ == (LayoutsView {
                focus: None,
                transactions: Seq::empty(),
                active_layout: None,
                layouts: Seq::empty(),
            }),
            layouts@.wf(),
            layouts@.distinct(),
    {
        Layouts { focus: None, transactions: Vec::new(), active_layout: None, layouts: Vec::new() }
    }

    /// Get layout at the specified offset.
    pub fn get(&self, index: usize) -> (layout: Option<Layout>)
        ensures
            layout == self@.get(index),
    {
        if index < self.layouts.len() {
            Some(self.layouts[index])
        } else {
            None
        }
    }

    /// Get the currently visible layout.
    pub fn active(&self) -> (layout: Layout)
        ensures
            layout == self@.active(),
    {
        match self.active_layout {
            Some(index) => {
                if index < self.layouts.len() {
                    self.layouts[index]
                } else {
                    Layout { primary: None, secondary: None }
                }
            },
            None => Layout { primary: None, secondary: None },
        }
    }

    /// Index of the currently visible layout.
    pub fn active_index(&self) -> (index: Option<usize>)
        ensures
            index == self@.active_layout,
    {
        self.active_layout
    }

    /// Window that has the focus.
    pub fn focus(&self) -> (focus: Option<WindowId>)
        ensures
            focus == self@.focus,
    {
        self.focus
    }

    /// Gives the focus to a window, or to nobody.
    pub fn set_focus(&mut self, focus: Option<WindowId>)
        ensures
            final(self)@ == (LayoutsView { focus, ..old(self)@ }),
    {
        self.focus = focus;
    }

    /// Number of changes that are staged.
    pub fn staged(&self) -> (count: usize)
        ensures
            count == self@.transactions.len(),
    {
        self.transactions.len()
    }

    /// Check if there are any layouts.
    pub fn is_empty(&self) -> (empty: bool)
        ensures
            empty == (self@.layouts.len() == 0),
    {
        self.layouts.len() == 0
    }

    /// Layout count.
    pub fn len(&self) -> (count: usize)
        ensures
            count == self@.layouts.len(),
    {
        self.layouts.len()
    }

    /// Convert layout position to window.
    pub fn window_at(&self, position: LayoutPosition) -> (window: Option<Window>)
        ensures
            window == self@.window_at(position),
    {
        if position.index < self.layouts.len() {
            if position.secondary {
                self.layouts[position.index].secondary
            } else {
                self.layouts[position.index].primary
            }
        } else {
            None
        }
    }

    /// Get layout position of a window: the first position at which a
    /// window shows the surface `id`.
    pub fn position(&self, id: WindowId) -> (position: Option<LayoutPosition>)
        ensures
            position == self@.position(id),
            match position {
                Some(found) => {
                    &&& self@.shows(found, id)
                    &&& forall|other: LayoutPosition|
                        precedes(other, found) ==> !#[trigger] self@.shows(other, id)
                },
                None => !self@.holds(id),
            },
            position.is_some() == held(self@.layouts, id),
    {
        let mut i: usize = 0;
        while i < self.layouts.len()
            invariant
                i <= self.layouts.len(),
                forall|j: int, a: bool| 0 <= j < i ==> #[trigger] slot_id(self@.layouts[j], a) != Some(id),
                forall|other: LayoutPosition|
                    other.index < i ==> !#[trigger] self@.shows(other, id),
                self@.position(id) == self@.position_from(id, i as int),
            decreases self.layouts.len() - i,
        {
            let layout = self.layouts[i];
            match layout.primary {
                Some(window) => {
                    if window.id == id {
                        assert(slot_id(self@.layouts[i as int], false) == Some(id));
                        return Some(LayoutPosition::new(i, false));
                    }
                },
                None => {},
            }
            match layout.secondary {
                Some(window) => {
                    if window.id == id {
                        assert(slot_id(self@.layouts[i as int], true) == Some(id));
                        return Some(LayoutPosition::new(i, true));
                    }
                },
                None => {},
            }
            i += 1;
        }
        None
    }

    /// Find the window for the given surface: the first window that shows
    /// it.
    pub fn find_window(&self, id: WindowId) -> (window: Option<Window>)
        ensures
            window == match self@.position(id) {
                Some(position) => self@.window_at(position),
                None => None,
            },
            window matches Some(found) ==> found.id == id,
            window.is_none() == !self@.holds(id),
    {
        match self.position(id) {
            Some(position) => self.window_at(position),
            None => None,
        }
    }

    /// Requests a geometry for the window at `position`, if there is one.
    fn resize_window(
        &mut self,
        clock: &mut TransactionClock,
        now: u64,
        position: LayoutPosition,
        rectangle: Rectangle,
    )
        ensures
            final(self)@ == old(self)@.resize(position, rectangle),
            same_surfaces(old(self)@.layouts, final(self)@.layouts),
            final(clock)@ == if old(self)@.window_at(position).is_some() {
                armed(old(clock)@, now)
            } else {
                old(clock)@
            },
    {
        if position.index < self.layouts.len() {
            let mut layout = self.layouts[position.index];
            if position.secondary {
                match layout.secondary {
                    Some(mut window) => {
                        window.set_dimensions(clock, now, rectangle);
                        layout.secondary = Some(window);
                        self.layouts[position.index] = layout;
                    },
                    None => {},
                }
            } else {
                match layout.primary {
                    Some(mut window) => {
                        window.set_dimensions(clock, now, rectangle);
                        layout.primary = Some(window);
                        self.layouts[position.index] = layout;
                    },
                    None => {},
                }
            }
        }
    }

    /// Tells the window at `position`, if there is one, that it is on the
    /// output, and gives it the focus.
    fn enter_window(&mut self, position: LayoutPosition)
        ensures
            final(self)@ == old(self)@.enter(position),
            same_surfaces(old(self)@.layouts, final(self)@.layouts),
    {
        if position.index < self.layouts.len() {
            let mut layout = self.layouts[position.index];
            if position.secondary {
                match layout.secondary {
                    Some(mut window) => {
                        window.enter();
                        layout.secondary = Some(window);
                        self.layouts[position.index] = layout;
                        self.focus = Some(window.id);
                    },
                    None => {},
                }
            } else {
                match layout.primary {
                    Some(mut window) => {
                        window.enter();
                        layout.primary = Some(window);
                        self.layouts[position.index] = layout;
                        self.focus = Some(window.id);
                    },
                    None => {},
                }
            }
        }
    }

    /// Add transactional update.
    fn add_transaction(&mut self, clock: &mut TransactionClock, now: u64, transaction: Transaction)
        ensures
            final(self)@ == old(self)@.stage(transaction),
            final(self)@.layouts == old(self)@.layouts,
            final(clock)@ == armed(old(clock)@, now),
    {
        clock.start(now);
        self.transactions.push(transaction);
    }

    /// Send leave event to active layout's windows.
    fn send_active_leave(&mut self)
        ensures
            final(self)@ == old(self)@.leave_active(),
    {
        match self.active_layout {
            Some(index) => {
                if index < self.layouts.len() {
                    let mut layout = self.layouts[index];
                    layout.leave();
                    self.layouts[index] = layout;
                }
            },
            None => {},
        }
    }

    /// Switch the active layout.
    ///
    /// The windows of the new layout learn at once that they are on the
    /// output; the switch itself waits for the transaction.
    pub fn set_active(&mut self, clock: &mut TransactionClock, now: u64, layout_index: Option<usize>)
        ensures
            final(self)@ == old(self)@.set_active(layout_index),
            final(clock)@ == armed(old(clock)@, now),
            old(self)@.wf() ==> final(self)@.wf(),
            old(self)@.distinct() ==> final(self)@.distinct(),
    {
        self.focus = None;
        match layout_index {
            Some(index) => {
                self.enter_window(LayoutPosition::new(index, true));
                self.enter_window(LayoutPosition::new(index, false));
            },
            None => {},
        }
        self.add_transaction(clock, now, Transaction::Active(layout_index));
        proof {
            if old(self)@.distinct() {
                crate::laws::same_surfaces_distinct(old(self)@.layouts, self@.layouts);
            }
        }
    }

    /// Create and activate a new layout using the desired primary window.
    ///
    /// Nothing happens if a window shows the surface of `primary` already.
    pub fn create(&mut self, clock: &mut TransactionClock, now: u64, output: &Output, primary: Window)
        ensures
            final(self)@ == old(self)@.create(*output, primary),
            final(clock)@ == if old(self)@.position(primary.id).is_some() {
                old(clock)@
            } else {
                armed(old(clock)@, now)
            },
            old(self)@.wf() ==> final(self)@.wf(),
            old(self)@.distinct() ==> final(self)@.distinct(),
    {
        if self.position(primary.id).is_some() {
            return ;
        }
        let mut primary = primary;
        primary.set_dimensions(clock, now, output.primary_rectangle(false));
        self.layouts.push(Layout::new(primary));
        let index: usize = self.layouts.len() - 1;
        self.set_active(clock, now, Some(index));
    }

    /// Cycle through window layouts.
    ///
    /// This will switch the layout to the one `n` layouts away from it.
    pub fn cycle_active(&mut self, clock: &mut TransactionClock, now: u64, n: isize)
        ensures
            final(self)@ == old(self)@.cycle_active(n),
            final(clock)@ == if old(self)@.layouts.len() == 0 {
                old(clock)@
            } else {
                armed(old(clock)@, now)
            },
            old(self)@.wf() ==> final(self)@.wf(),
            old(self)@.distinct() ==> final(self)@.distinct(),
    {
        let count: usize = self.layouts.len();
        if count == 0 {
            return ;
        }
        let from: i128 = match self.active_layout {
            Some(index) => index as i128 + n as i128,
            // Use first "step" to cycle from no active layout to index 0.
            None => if n > 0 {
                n as i128 - 1
            } else if n < 0 {
                n as i128 + 1
            } else {
                0
            },
        };
        let target: usize = match from.checked_rem_euclid(count as i128) {
            Some(target) => target as usize,
            None => 0,
        };
        assert(0int % (count as int) == 0) by (nonlinear_arith)
            requires
                count > 0,
        ;
        self.set_active(clock, now, Some(target));
    }

    /// Update the active layout's primary window.
    pub fn set_primary(
        &mut self,
        clock: &mut TransactionClock,
        now: u64,
        output: &Output,
        position: LayoutPosition,
    )
        ensures
            final(self)@ == old(self)@.set_primary(*output, position),
            final(clock)@ == if position.index < old(self)@.layouts.len() {
                armed(old(clock)@, now)
            } else {
                old(clock)@
            },
            old(self)@.wf() ==> final(self)@.wf(),
            old(self)@.distinct() ==> final(self)@.distinct(),
    {
        if position.index >= self.layouts.len() {
            return ;
        }
        // Perform simple layout swap when no resize is necessary.
        if self.layouts[position.index].secondary.is_none() {
            self.set_active(clock, now, Some(position.index));
            return ;
        }
        // Resize both windows to fullscreen, since secondary will be split off.
        let full = output.primary_rectangle(false);
        self.resize_window(clock, now, LayoutPosition::new(position.index, false), full);
        self.resize_window(clock, now, LayoutPosition::new(position.index, true), full);

        // Send enter event for new primary, and stage the change for it.
        match self.window_at(position) {
            Some(window) => {
                self.enter_window(position);
                self.add_transaction(clock, now, Transaction::Primary(position, window.id));
            },
            None => {},
        }
        proof {
            if old(self)@.distinct() {
                crate::laws::same_surfaces_distinct(old(self)@.layouts, self@.layouts);
            }
        }
    }

    /// Update the active layout's secondary window.
    pub fn set_secondary(
        &mut self,
        clock: &mut TransactionClock,
        now: u64,
        output: &Output,
        position: LayoutPosition,
    )
        ensures
            final(self)@ == old(self)@.set_secondary(*output, position),
            final(clock)@ == if position.index < old(self)@.layouts.len() {
                armed(old(clock)@, now)
            } else {
                old(clock)@
            },
            old(self)@.wf() ==> final(self)@.wf(),
            old(self)@.distinct() ==> final(self)@.distinct(),
    {
        if position.index >= self.layouts.len() {
            return ;
        }
        let active: usize = match self.active_layout {
            Some(index) => index,
            None => {
                self.set_primary(clock, now, output, position);
                return ;
            },
        };
        // Block setting secondary without primary present.
        if self.active().primary.is_none() {
            self.set_primary(clock, now, output, position);
            return ;
        }
        let full = output.primary_rectangle(false);

        // Resize primary, and old secondary since it will get booted.
        self.resize_window(clock, now, LayoutPosition::new(active, false), output.primary_rectangle(true));
        self.resize_window(clock, now, LayoutPosition::new(active, true), full);

        // Resize new secondary if it was primary before.
        if !position.secondary {
            self.resize_window(clock, now, position, output.secondary_rectangle());
        }
        // Resize old layout's sibling since we split the layout up.
        self.resize_window(clock, now, LayoutPosition::new(position.index, !position.secondary), full);

        // Send enter event for new secondary, and stage the change for it.
        match self.window_at(position) {
            Some(window) => {
                self.enter_window(position);
                self.add_transaction(clock, now, Transaction::Secondary(position, window.id));
            },
            None => {},
        }
        proof {
            if old(self)@.distinct() {
                crate::laws::same_surfaces_distinct(old(self)@.layouts, self@.layouts);
            }
        }
    }

    /// Resize all windows.
    pub fn resize_all(&mut self, clock: &mut TransactionClock, now: u64, output: &Output)
        ensures
            final(self)@ == old(self)@.resize_all(*output),
            final(clock)@ == if old(self)@.populated() {
                armed(old(clock)@, now)
            } else {
                old(clock)@
            },
            old(self)@.wf() ==> final(self)@.wf(),
            old(self)@.distinct() ==> final(self)@.distinct(),
    {
        let count: usize = self.layouts.len();
        let mut i: usize = 0;
        while i < count
            invariant
                i <= count,
                count == self.layouts@.len(),
                count == old(self)@.layouts.len(),
                self.focus == old(self).focus,
                self.active_layout == old(self).active_layout,
                self.transactions == old(self).transactions,
                forall|j: int| 0 <= j < i ==> self.layouts@[j] == old(self)@.layouts[j].resized(*output),
                forall|j: int| i <= j < count ==> self.layouts@[j] == old(self)@.layouts[j],
                clock@ == if exists|j: int|
                    0 <= j < i && (#[trigger] old(self)@.layouts[j]).spec_window_count() > 0 {
                    armed(old(clock)@, now)
                } else {
                    old(clock)@
                },
            decreases count - i,
        {
            let mut layout = self.layouts[i];
            let shared = match layout.secondary {
                Some(window) => window.alive(),
                None => false,
            };
            match layout.primary {
                Some(mut window) => {
                    window.set_dimensions(clock, now, output.primary_rectangle(shared));
                    layout.primary = Some(window);
                },
                None => {},
            }
            match layout.secondary {
                Some(mut window) => {
                    window.set_dimensions(clock, now, output.secondary_rectangle());
                    layout.secondary = Some(window);
                },
                None => {},
            }
            self.layouts[i] = layout;
            proof {
                if old(self)@.layouts[i as int].spec_window_count() > 0 {
                    assert(exists|j: int|
                        0 <= j < i + 1 && (#[trigger] old(self)@.layouts[j]).spec_window_count() > 0);
                }
            }
            i += 1;
        }
        assert(self@.layouts =~= old(self)@.resize_all(*output).layouts);
        proof {
            if old(self)@.distinct() {
                crate::laws::same_surfaces_distinct(old(self)@.layouts, self@.layouts);
            }
        }
    }

    /// Stage a dead window for reaping.
    ///
    /// Every window that shows the surface `id` is marked dead, and the
    /// window beside it is asked to fill the output. A transaction is
    /// started even if nothing changes, so that the window is reaped.
    pub fn reap(&mut self, clock: &mut TransactionClock, now: u64, output: &Output, id: WindowId)
        ensures
            final(self)@ == old(self)@.reap(*output, id),
            final(clock)@ == armed(old(clock)@, now),
            old(self)@.wf() ==> final(self)@.wf(),
            old(self)@.distinct() ==> final(self)@.distinct(),
    {
        // Ensure window is reaped even if no resize is required.
        clock.start(now);

        let full = output.primary_rectangle(false);
        let count: usize = self.layouts.len();
        let mut i: usize = 0;
        while i < count
            invariant
                i <= count,
                count == self.layouts@.len(),
                count == old(self)@.layouts.len(),
                full == output.spec_primary_rectangle(false),
                self.focus == old(self).focus,
                self.active_layout == old(self).active_layout,
                self.transactions == old(self).transactions,
                forall|j: int| 0 <= j < i ==> self.layouts@[j] == old(self)@.layouts[j].reaped(id, full),
                forall|j: int| i <= j < count ==> self.layouts@[j] == old(self)@.layouts[j],
                clock@ == armed(old(clock)@, now),
            decreases count - i,
        {
            let mut layout = self.layouts[i];
            let primary_hit = match layout.primary {
                Some(window) => window.id == id,
                None => false,
            };
            let secondary_hit = match layout.secondary {
                Some(window) => window.id == id,
                None => false,
            };
            if primary_hit || secondary_hit {
                match layout.primary {
                    Some(mut window) => {
                        if primary_hit {
                            window.kill();
                        } else {
                            window.set_dimensions(clock, now, full);
                        }
                        layout.primary = Some(window);
                    },
                    None => {},
                }
                match layout.secondary {
                    Some(mut window) => {
                        if primary_hit {
                            window.set_dimensions(clock, now, full);
                        }
                        if secondary_hit {
                            window.kill();
                        }
                        layout.secondary = Some(window);
                    },
                    None => {},
                }
                self.layouts[i] = layout;
            }
            i += 1;
        }
        assert(self@.layouts =~= old(self)@.reap(*output, id).layouts);
        proof {
            if old(self)@.distinct() {
                crate::laws::same_surfaces_distinct(old(self)@.layouts, self@.layouts);
            }
        }
    }

    /// Apply a layout switch transaction.
    fn apply_set_active_transaction(&mut self, layout: Option<usize>)
        ensures
            final(self)@ == old(self)@.apply_active(layout),
    {
        // Skip no-ops.
        if layout == self.active_layout {
            return ;
        }
        // Skip a layout that is gone.
        match layout {
            Some(index) => {
                if index >= self.layouts.len() {
                    return ;
                }
            },
            None => {},
        }
        // Send leave event to old layout's windows.
        self.send_active_leave();

        self.active_layout = layout;
    }

    /// Whether the window at `position` shows the surface `id`.
    fn shows(&self, position: LayoutPosition, id: WindowId) -> (held: bool)
        ensures
            held == self@.shows(position, id),
    {
        match self.window_at(position) {
            Some(window) => window.id == id,
            None => false,
        }
    }

    /// Whether a staged change of the window `id` at `position` is still
    /// valid.
    fn still_holds(&self, position: LayoutPosition, id: WindowId) -> (valid: bool)
        ensures
            valid == self@.still_holds(position, id),
    {
        match self.window_at(position) {
            Some(window) => window.id == id && window.alive(),
            None => false,
        }
    }

    /// Apply a primary layout change transaction.
    fn apply_primary_transaction(&mut self, position: LayoutPosition, id: WindowId)
        ensures
            final(self)@ == old(self)@.apply_primary(position, id),
    {
        // Ensure transaction was not invalidated by previous transaction.
        if !self.still_holds(position, id) {
            return ;
        }
        let mut layout = self.layouts[position.index];

        // Split secondary into new layout.
        match layout.secondary {
            Some(window) => {
                layout.secondary = None;
                self.layouts[position.index] = layout;
                self.layouts.push(Layout::new(window));
            },
            None => {},
        }

        // Send leave event to old layout's windows.
        self.send_active_leave();

        // Switch to layout with new primary window.
        if position.secondary {
            self.active_layout = Some(self.layouts.len() - 1);
        } else {
            self.active_layout = Some(position.index);
        }
    }

    /// Apply a secondary layout change transaction.
    fn apply_secondary_transaction(&mut self, position: LayoutPosition, id: WindowId)
        ensures
            final(self)@ == old(self)@.apply_secondary(position, id),
    {
        // Ensure transaction was not invalidated by previous transaction.
        if !self.still_holds(position, id) {
            return ;
        }
        let layout = self.layouts[position.index];

        // Remove new secondary from old layout; move the secondary that
        // stays behind to primary if we're taking the primary away.
        let moved = if position.secondary { layout.secondary } else { layout.primary };
        let mut stays = layout;
        if !position.secondary {
            // Send leave for old secondary.
            stays.primary = match layout.secondary {
                Some(mut window) => {
                    window.leave();
                    Some(window)
                },
                None => None,
            };
        }
        stays.secondary = None;

        let active: Option<usize> = match self.active_layout {
            Some(index) => if index < self.layouts.len() {
                Some(index)
            } else {
                None
            },
            None => None,
        };
        match active {
            Some(index) => {
                self.layouts[position.index] = stays;

                // Replace the active layout's secondary window.
                let mut active_layout = self.layouts[index];
                let old_secondary = active_layout.secondary;
                active_layout.secondary = moved;
                self.layouts[index] = active_layout;

                // Move active layout's old secondary to its own layout.
                match old_secondary {
                    Some(window) => {
                        self.layouts.push(Layout::new(window));
                    },
                    None => {},
                }
            },
            None => {
                if stays.primary.is_none() {
                    // Switch to existing layout when none is active and it is on its own already.
                    self.active_layout = Some(position.index);
                } else {
                    // Create new layout when none is currently active.
                    self.layouts[position.index] = stays;
                    self.layouts.push(Layout { primary: None, secondary: moved });
                    self.active_layout = Some(self.layouts.len() - 1);
                }
            },
        }
    }

    /// Apply all pending transaction updates.
    ///
    /// The staged changes take effect in the order in which they were
    /// staged. Then dead windows are removed, the pending geometry of the
    /// others takes effect, and layouts without windows are dropped.
    /// Afterwards the active index is unset or points at a layout, and
    /// every layout has a primary window.
    pub fn apply_transaction(&mut self)
        ensures
            final(self)@ == old(self)@.apply_transaction(),
            final(self)@.wf(),
            old(self)@.distinct() ==> final(self)@.distinct(),
    {
        // Apply transactional layout changes.
        let staged: usize = self.transactions.len();
        let mut i: usize = 0;
        while i < staged
            invariant
                i <= staged,
                staged == self.transactions@.len(),
                self.transactions@ == old(self)@.transactions,
                self@ == old(self)@.apply_changes(old(self)@.transactions.take(i as int)),
            decreases staged - i,
        {
            let transaction = self.transactions[i];
            match transaction {
                Transaction::Active(layout) => {
                    self.apply_set_active_transaction(layout);
                },
                Transaction::Primary(position, id) => {
                    self.apply_primary_transaction(position, id);
                },
                Transaction::Secondary(position, id) => {
                    self.apply_secondary_transaction(position, id);
                },
            }
            proof {
                let changes = old(self)@.transactions;
                assert(changes.take(i + 1).drop_last() =~= changes.take(i as int));
                assert(changes.take(i + 1).last() == transaction);
            }
            i += 1;
        }
        assert(old(self)@.transactions.take(staged as int) =~= old(self)@.transactions);
        self.transactions.clear();

        // Reap dead windows and apply window transactions.
        let ghost applied = self@;
        let count: usize = self.layouts.len();
        let mut kept: Vec<Layout> = Vec::new();
        let mut active: Option<usize> = None;
        let mut index: usize = 0;
        while index < count
            invariant
                index <= count,
                count == self.layouts@.len(),
                self@ == applied,
                kept@ == retained(applied.layouts.take(index as int)),
                kept@.len() <= index,
                forall|j: int| 0 <= j < kept@.len() ==> (#[trigger] kept@[j]).primary.is_some(),
                active == match applied.active_layout {
                    Some(at) if at < index && applied.layouts[at as int].settled().primary.is_some() => Some(
                        retained(applied.layouts.take(at as int)).len() as usize,
                    ),
                    _ => None::<usize>,
                },
                active matches Some(at) ==> at < kept@.len(),
            decreases count - index,
        {
            let mut layout = self.layouts[index];
            layout.settle();
            proof {
                let layouts = applied.layouts;
                assert(layouts.take(index + 1).drop_last() =~= layouts.take(index as int));
                assert(layouts.take(index + 1).last() == layouts[index as int]);
            }
            // Remove the layout when all windows have died.
            if layout.primary.is_some() {
                // Adjust active layout index.
                if self.active_layout == Some(index) {
                    active = Some(kept.len());
                }
                kept.push(layout);
            }
            index += 1;
        }
        assert(applied.layouts.take(count as int) =~= applied.layouts);
        self.layouts = kept;
        self.active_layout = active;
        proof {
            if old(self)@.distinct() {
                crate::laws::apply_transaction_distinct(old(self)@);
            }
        }
    }

    /// Overview offset of the active layout.
    pub fn active_offset(&self) -> (offset: i64)
        ensures
            offset == self@.active_offset(),
    {
        match self.active_layout {
            Some(index) => {
                let wide: i128 = -(index as i128 * 1500);
                if wide < i64::MIN as i128 {
                    i64::MIN
                } else {
                    wide as i64
                }
            },
            None => 0,
        }
    }

    /// Replaces the window at `position` by `window`, if the two show the
    /// same surface.
    pub fn set_window(&mut self, position: LayoutPosition, window: Window)
        ensures
            final(self)@ == old(self)@.replace(position, window),
            old(self)@.wf() ==> final(self)@.wf(),
            old(self)@.distinct() ==> final(self)@.distinct(),
    {
        if self.shows(position, window.id) {
            let mut layout = self.layouts[position.index];
            if position.secondary {
                layout.secondary = Some(window);
            } else {
                layout.primary = Some(window);
            }
            self.layouts[position.index] = layout;
            proof {
                if old(self)@.distinct() {
                    crate::laws::same_surfaces_distinct(old(self)@.layouts, self@.layouts);
                }
            }
        }
    }

    /// Get all windows.
    pub fn windows(&self) -> (windows: Vec<Window>)
        ensures
            windows@ == self@.windows(),
    {
        let mut windows: Vec<Window> = Vec::new();
        let mut i: usize = 0;
        assert(self.layouts@.take(0) =~= Seq::<Layout>::empty());
        while i < self.layouts.len()
            invariant
                i <= self.layouts@.len(),
                windows@ == all_windows(self.layouts@.take(i as int)),
            decreases self.layouts@.len() - i,
        {
            let layout = self.layouts[i];
            proof {
                assert(self.layouts@.take(i + 1).drop_last() =~= self.layouts@.take(i as int));
                assert(self.layouts@.take(i + 1).last() == layout);
            }
            let ghost before = windows@;
            match layout.primary {
                Some(window) => windows.push(window),
                None => {},
            }
            match layout.secondary {
                Some(window) => windows.push(window),
                None => {},
            }
            assert(windows@ =~= before + layout.spec_windows());
            i += 1;
        }
        assert(self.layouts@.take(i as int) =~= self.layouts@);
        windows
    }

    /// Whether every window has caught up with the geometry requested of
    /// it.
    pub fn transaction_done(&self) -> (done: bool)
        ensures
            done == self@.transaction_done(),
    {
        let mut i: usize = 0;
        while i < self.layouts.len()
            invariant
                i <= self.layouts@.len(),
                forall|j: int| 0 <= j < i ==> (#[trigger] self.layouts@[j]).spec_transaction_done(),
            decreases self.layouts@.len() - i,
        {
            if !self.layouts[i].transaction_done() {
                assert(!self@.layouts[i as int].spec_transaction_done());
                return false;
            }
            i += 1;
        }
        true
    }

    /// Whether any window changed since it was last drawn.
    pub fn dirty(&self) -> (dirty: bool)
        ensures
            dirty == self@.dirty(),
    {
        let mut i: usize = 0;
        while i < self.layouts.len()
            invariant
                i <= self.layouts@.len(),
                forall|j: int| 0 <= j < i ==> !(#[trigger] self.layouts@[j]).spec_dirty(),
            decreases self.layouts@.len() - i,
        {
            if self.layouts[i].dirty() {
                assert(self@.layouts[i as int].spec_dirty());
                return true;
            }
            i += 1;
        }
        false
    }

    /// Lets `change` happen to the windows that show the surface `id`.
    pub fn change(
        &mut self,
        clock: &mut TransactionClock,
        now: u64,
        id: WindowId,
        change: WindowChange,
    )
        ensures
            final(self)@ == old(self)@.change(id, change),
            final(clock)@ == if change.spec_transactional() && old(self)@.shown_within(
                id,
                old(self)@.layouts.len() as int,
            ) {
                armed(old(clock)@, now)
            } else {
                old(clock)@
            },
            old(self)@.wf() ==> final(self)@.wf(),
            old(self)@.distinct() ==> final(self)@.distinct(),
    {
        let count: usize = self.layouts.len();
        let mut i: usize = 0;
        while i < count
            invariant
                i <= count,
                count == self.layouts@.len(),
                count == old(self)@.layouts.len(),
                self.focus == old(self).focus,
                self.active_layout == old(self).active_layout,
                self.transactions == old(self).transactions,
                forall|j: int| 0 <= j < i ==> self.layouts@[j] == old(self)@.layouts[j].changed(id, change),
                forall|j: int| i <= j < count ==> self.layouts@[j] == old(self)@.layouts[j],
                clock@ == if change.spec_transactional() && old(self)@.shown_within(id, i as int) {
                    armed(old(clock)@, now)
                } else {
                    old(clock)@
                },
            decreases count - i,
        {
            let mut layout = self.layouts[i];
            match layout.primary {
                Some(mut window) => {
                    if window.id == id {
                        window.change(clock, now, change);
                        layout.primary = Some(window);
                    }
                },
                None => {},
            }
            match layout.secondary {
                Some(mut window) => {
                    if window.id == id {
                        window.change(clock, now, change);
                        layout.secondary = Some(window);
                    }
                },
                None => {},
            }
            self.layouts[i] = layout;
            proof {
                let source = old(self)@;
                if source.layouts[i as int].shows(id) {
                    assert(source.shown_within(id, i + 1));
                } else if source.shown_within(id, i + 1) {
                    let j = choose|j: int|
                        0 <= j < i + 1 && j < source.layouts.len() && (
                        #[trigger] source.layouts[j]).shows(id);
                    assert(source.shown_within(id, i as int));
                }
            }
            i += 1;
        }
        assert(self@.layouts =~= old(self)@.change(id, change).layouts);
        proof {
            if old(self)@.distinct() {
                crate::laws::same_surfaces_distinct(old(self)@.layouts, self@.layouts);
            }
        }
    }

    /// Add all visible windows' textures to the supplied buffer.
    pub fn textures(&self, textures: &mut Vec<Element>)
        ensures
            final(textures)@ == old(textures)@ + self@.textures(),
    {
        let layout = self.active();
        match layout.secondary {
            Some(window) => textures.push(Element::plain(window)),
            None => {},
        }
        match layout.primary {
            Some(window) => textures.push(Element::plain(window)),
            None => {},
        }
        assert(textures@ =~= old(textures)@ + self@.textures());
    }

    /// The visible windows: those of the active layout, the primary first.
    pub fn with_visible(&self) -> (windows: Vec<Window>)
        ensures
            windows@ == self@.visible(),
    {
        let layout = self.active();
        let mut windows: Vec<Window> = Vec::new();
        match layout.primary {
            Some(window) => windows.push(window),
            None => {},
        }
        match layout.secondary {
            Some(window) => windows.push(window),
            None => {},
        }
        assert(windows@ =~= self@.visible());
        windows
    }
}

} // verus!
