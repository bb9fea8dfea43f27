//! Window management.

use vstd::prelude::*;
use crate::drawing::Element;
use crate::geometry::{clamp_i32, max, saturate, Point, Size};
use crate::layer::{
    any_dirty, elements_of, topmost_at, Layer, LayerWindow, Layers, LayersView,
};
use crate::layout::{LayoutPosition, Layouts, LayoutsView};
use crate::orientation::Orientation;
use crate::output::{Canvas, Output, GESTURE_HANDLE_HEIGHT};
use crate::overview::{
    clamp, clamp_i64, magnitude, DragAction, DragAndDrop, Overview, OFFSET_PER_PIXEL,
};
use crate::popup::{
    adopter, destroy, destroyed, find, index_of, owns, refreshed, Adoption, Popup,
};
use crate::transaction::{armed, elapsed_millis, TransactionClock, MAX_TRANSACTION_MILLIS};
use crate::window::{Window, WindowChange, WindowId};

verus! {

/// Compositor window arrangements.
#[derive(Clone, Copy, Debug, PartialEq, Eq, Structural)]
pub enum ViewMode {
    /// List of all open windows.
    Overview(Overview),
    /// Drag and drop for tiling windows.
    DragAndDrop(DragAndDrop),
    /// Fullscreened XDG-shell window.
    Fullscreen(WindowId),
    /// Currently active windows.
    Workspace,
}

/// Touch gestures that change what is shown.
#[derive(Clone, Copy, Debug, PartialEq, Eq, Structural)]
pub enum Gesture {
    /// Swipe up from the bottom edge.
    Up,
    /// Swipe to the left along the bottom edge.
    Left,
    /// Swipe to the right along the bottom edge.
    Right,
}

impl Default for ViewMode {
    fn default() -> (view: Self)
        ensures
            view == ViewMode::Workspace,
    {
        ViewMode::Workspace
    }
}

/// The clock after a request to start a transaction at `now` that was made
/// only if `started` holds.
pub open spec fn armed_if(started: bool, clock: Option<u64>, now: u64) -> Option<u64> {
    if started {
        armed(clock, now)
    } else {
        clock
    }
}

/// What the window manager holds, as far as contracts are concerned.
pub struct WindowsView {
    /// Client-independent damage.
    pub dirty: bool,
    /// The tiled windows.
    pub layouts: LayoutsView,
    /// The layer shell windows.
    pub layers: LayersView,
    /// What is on the output.
    pub view: ViewMode,
    /// What will be on the output once the transaction is applied.
    pub staged_view: Option<ViewMode>,
    /// Start of the transaction in flight.
    pub clock: Option<u64>,
    /// The output that windows are laid out on.
    pub output: Output,
    /// Output state that the last applied transaction left.
    pub canvas: Canvas,
    /// Orientation that the device reported last, followed or not.
    pub unlocked_orientation: Orientation,
    /// Whether the output keeps its orientation when the device turns.
    pub orientation_locked: bool,
    /// Window whose client was told that it has the focus.
    pub activated: Option<WindowId>,
    /// Popups that are not shown over a window yet.
    pub orphan_popups: Seq<Popup>,
    /// Popups that are shown over a window.
    pub popups: Seq<Popup>,
}

/// What a committed surface turned out to be.
#[derive(Clone, Copy, Debug, PartialEq, Eq, Structural)]
pub enum Commit {
    /// The surface of a tiled window.
    Toplevel,
    /// A popup that was an orphan, and what became of it.
    Orphan(Adoption),
    /// A popup that is shown over a window.
    Popup,
    /// The surface of a layer shell window.
    Layer,
    /// A surface that no window shows.
    Unknown,
}

impl WindowsView {
    /// The window manager before anything happened on `output`.
    pub open spec fn new(output: Output) -> WindowsView {
        WindowsView {
            dirty: true,
            layouts: LayoutsView {
                focus: None,
                transactions: Seq::empty(),
                active_layout: None,
                layouts: Seq::empty(),
            },
            layers: LayersView {
                focus: None,
                background: Seq::empty(),
                bottom: Seq::empty(),
                top: Seq::empty(),
                overlay: Seq::empty(),
            },
            view: ViewMode::Workspace,
            staged_view: None,
            clock: None,
            output,
            canvas: output.spec_canvas(),
            unlocked_orientation: Orientation::Portrait,
            orientation_locked: true,
            activated: None,
            orphan_popups: Seq::empty(),
            popups: Seq::empty(),
        }
    }

    /// The view once the transaction in flight is applied.
    pub open spec fn next_view(self) -> ViewMode {
        match self.staged_view {
            Some(view) => view,
            None => self.view,
        }
    }

    /// Whether a window is fullscreen.
    pub open spec fn fullscreen_active(self) -> bool {
        self.view is Fullscreen
    }

    /// The window manager after a change of view was staged.
    pub open spec fn set_view(self, now: u64, view: ViewMode) -> WindowsView {
        WindowsView { clock: armed(self.clock, now), staged_view: Some(view), ..self }
    }

    /// The window manager after a new window was added as the primary of a
    /// layout of its own. A surface that a tiled window shows already gets
    /// no second window.
    pub open spec fn add(self, now: u64, surface: WindowId) -> WindowsView {
        WindowsView {
            layouts: self.layouts.create(self.output, Window::spec_new(surface)),
            clock: armed_if(self.layouts.position(surface).is_none(), self.clock, now),
            ..self
        }
    }

    /// The window manager after a layer shell window was added on top of
    /// `layer`.
    pub open spec fn add_layer(self, layer: Layer, window: LayerWindow) -> WindowsView {
        WindowsView {
            layers: self.layers.add(layer, LayerWindow { window: window.window.entered(), ..window }),
            ..self
        }
    }

    /// The window manager after all windows that the next view shows were
    /// asked for the geometry of their place.
    ///
    /// A fullscreen view concerns the fullscreen window, which is asked to
    /// fill the output, and the overlay windows. Any other view concerns
    /// the windows of all layouts, which are asked for the geometry of
    /// their slots, and all layer shell windows.
    pub open spec fn resize_all(self, now: u64) -> WindowsView {
        match self.next_view() {
            ViewMode::Fullscreen(id) => {
                let (layers, output) = self.layers.update_dimensions(self.output, true);
                WindowsView {
                    layouts: self.layouts.change(
                        id,
                        WindowChange::Resize(self.output.spec_available_fullscreen()),
                    ),
                    layers,
                    output,
                    clock: armed_if(
                        self.layouts.shown_within(id, self.layouts.layouts.len() as int)
                            || self.layers.placeable(true),
                        self.clock,
                        now,
                    ),
                    ..self
                }
            },
            _ => {
                let (layers, output) = self.layers.update_dimensions(self.output, false);
                WindowsView {
                    layouts: self.layouts.resize_all(self.output),
                    layers,
                    output,
                    clock: armed_if(
                        self.layouts.populated() || self.layers.placeable(false),
                        self.clock,
                        now,
                    ),
                    ..self
                }
            },
        }
    }

    /// The window manager after the output was turned to `orientation`.
    pub open spec fn turn(self, now: u64, orientation: Orientation) -> WindowsView {
        WindowsView {
            clock: armed(self.clock, now),
            output: Output { orientation, ..self.output },
            ..self
        }.resize_all(now)
    }

    /// The window manager after the device reported `orientation`: the
    /// output follows unless its orientation is locked.
    pub open spec fn update_orientation(self, now: u64, orientation: Orientation) -> WindowsView {
        let noted = WindowsView { unlocked_orientation: orientation, ..self };
        if self.orientation_locked {
            noted
        } else {
            noted.turn(now, orientation)
        }
    }

    /// The window manager after the orientation of the output was locked,
    /// as it is or turned to the orientation given. What the device
    /// reported last is kept.
    pub open spec fn lock_orientation(self, now: u64, orientation: Option<Orientation>) -> WindowsView {
        let turned = match orientation {
            Some(orientation) => self.turn(now, orientation),
            None => self,
        };
        WindowsView { orientation_locked: true, ..turned }
    }

    /// The window manager after the orientation of the output was
    /// unlocked: the output turns to what the device reported last.
    pub open spec fn unlock_orientation(self, now: u64) -> WindowsView {
        WindowsView { orientation_locked: false, ..self }.turn(now, self.unlocked_orientation)
    }

    /// Whether the transaction in flight has to wait at `now`: it is young
    /// enough and a window has not caught up yet.
    pub open spec fn transaction_pending(self, now: u64) -> bool {
        &&& self.clock matches Some(start)
        &&& elapsed_millis(start, now) <= MAX_TRANSACTION_MILLIS
        &&& !(self.layouts.transaction_done() && self.layers.transaction_done())
    }

    /// The window manager after the staged changes took effect: first those
    /// of the layouts, then the removal of dead layer shell windows, then
    /// the change of view. Without layouts the view is the workspace. The
    /// output is marked for a redraw if the view changed or if a window
    /// that was on it is gone.
    pub open spec fn apply_transaction(self) -> WindowsView {
        let layouts = self.layouts.apply_transaction();
        let layers = self.layers.apply_transaction();
        WindowsView {
            dirty: self.dirty || self.staged_view.is_some() || self.layouts.active().spec_window_count()
                != layouts.active().spec_window_count() || self.layers.all().len()
                != layers.all().len(),
            layouts,
            layers,
            view: if layouts.layouts.len() == 0 {
                ViewMode::Workspace
            } else {
                self.next_view()
            },
            staged_view: None,
            clock: None,
            canvas: self.output.spec_canvas(),
            ..self
        }
    }

    /// The window manager after a frame tick at `now`.
    pub open spec fn update_transaction(self, now: u64) -> WindowsView {
        if self.clock.is_none() || self.transaction_pending(now) {
            self
        } else {
            self.apply_transaction()
        }
    }

    /// Time in milliseconds until the transaction in flight is applied
    /// regardless of its windows, if it has to wait at `now`.
    pub open spec fn transaction_deadline(self, now: u64) -> Option<u64> {
        if self.transaction_pending(now) {
            Some((MAX_TRANSACTION_MILLIS - elapsed_millis(self.clock.unwrap(), now)) as u64)
        } else {
            None
        }
    }

    /// The window manager with nobody in focus.
    pub open spec fn clear_focus(self) -> WindowsView {
        WindowsView {
            layouts: LayoutsView { focus: None, ..self.layouts },
            layers: LayersView { focus: None, ..self.layers },
            ..self
        }
    }

    /// The window manager after a touch on a layer shell window: the
    /// window takes the focus unless it refuses it.
    pub open spec fn focus_layer(self, window: LayerWindow) -> WindowsView {
        if window.deny_focus {
            self
        } else {
            WindowsView {
                layouts: LayoutsView { focus: None, ..self.layouts },
                layers: LayersView { focus: Some(window.window.id), ..self.layers },
                ..self
            }
        }
    }

    /// The window manager after a touch on a tiled window: the window
    /// takes the focus.
    pub open spec fn focus_window(self, window: Window) -> WindowsView {
        WindowsView {
            layouts: LayoutsView { focus: Some(window.id), ..self.layouts },
            layers: LayersView { focus: None, ..self.layers },
            ..self
        }
    }

    /// The window that a touch at `position` goes to.
    ///
    /// In the workspace that is the topmost window there: a layer shell
    /// window above the tiled ones, else the primary or the secondary of
    /// the active layout, else a layer shell window below. While a window
    /// is fullscreen it is an overlay window or the fullscreen window. The
    /// overview and a drag take all touches themselves.
    pub open spec fn touched(self, position: Point) -> Option<WindowId> {
        match self.view {
            ViewMode::Workspace => match self.layers.foreground_window_at(position) {
                Some(window) => Some(window.window.id),
                None => match self.layouts.active().primary {
                    Some(window) if window.spec_contains(position) => Some(window.id),
                    _ => match self.layouts.active().secondary {
                        Some(window) if window.spec_contains(position) => Some(window.id),
                        _ => match self.layers.background_window_at(position) {
                            Some(window) => Some(window.window.id),
                            None => None,
                        },
                    },
                },
            },
            ViewMode::Fullscreen(id) => match topmost_at(self.layers.overlay, position) {
                Some(window) => Some(window.window.id),
                None => match self.layouts.position(id) {
                    Some(found) if self.layouts.window_at(found).unwrap().spec_contains(position) => Some(
                        id,
                    ),
                    _ => None,
                },
            },
            _ => None,
        }
    }

    /// The window manager after a touch at `position`: the window that the
    /// touch goes to takes the focus, unless it is a layer shell window
    /// that refuses it or the fullscreen window; a touch in the workspace
    /// that goes to no window leaves nobody in focus.
    pub open spec fn touch_surface_at(self, position: Point) -> WindowsView {
        match self.view {
            ViewMode::Workspace => match self.layers.foreground_window_at(position) {
                Some(window) => self.focus_layer(window),
                None => match self.layouts.active().primary {
                    Some(window) if window.spec_contains(position) => self.focus_window(window),
                    _ => match self.layouts.active().secondary {
                        Some(window) if window.spec_contains(position) => self.focus_window(window),
                        _ => match self.layers.background_window_at(position) {
                            Some(window) => self.focus_layer(window),
                            None => self.clear_focus(),
                        },
                    },
                },
            },
            ViewMode::Fullscreen(_) => match topmost_at(self.layers.overlay, position) {
                Some(window) => self.focus_layer(window),
                None => self,
            },
            _ => self,
        }
    }

    /// The window manager after a touch went down at `point`.
    ///
    /// In the overview this ends the drag before it and, on a window,
    /// starts the hold that picks the window up.
    pub open spec fn on_touch_start(self, point: Point) -> WindowsView {
        match self.view {
            ViewMode::Overview(overview) => WindowsView {
                view: ViewMode::Overview(
                    Overview {
                        hold_timer: match overview.spec_layout_position(
                            &self.output,
                            self.layouts,
                            point,
                        ) {
                            Some(position) => Some(position),
                            None => overview.hold_timer,
                        },
                        drag_action: DragAction::Idle,
                        last_drag_point: point,
                        y_offset: 0,
                        ..overview
                    },
                ),
                ..self
            },
            _ => self,
        }
    }

    /// The window manager after a tap at `point`.
    ///
    /// In the overview a tap on a window stages its layout as the active
    /// one; any tap there stages the return to the workspace. In the
    /// workspace a tap on the gesture handle leaves nobody in focus.
    pub open spec fn on_tap(self, now: u64, point: Point) -> WindowsView {
        match self.view {
            ViewMode::Overview(overview) => {
                let released = Overview { hold_timer: None, ..overview };
                WindowsView {
                    view: ViewMode::Overview(released),
                    layouts: match released.spec_layout_position(&self.output, self.layouts, point) {
                        Some(position) => self.layouts.set_active(Some(position.index)),
                        None => self.layouts,
                    },
                    ..self
                }.set_view(now, ViewMode::Workspace)
            },
            ViewMode::Workspace => if point.y >= self.output.spec_size().h - GESTURE_HANDLE_HEIGHT {
                self.clear_focus()
            } else {
                self
            },
            _ => self,
        }
    }

    /// Whether `point` lies off the output.
    pub open spec fn off_output(self, point: Point) -> bool {
        let size = self.output.spec_size();
        point.x < 0 || point.x > size.w || point.y < 0 || point.y > size.h
    }

    /// A touch at `point` as a drag of a window sees it: a touch off the
    /// output counts as one on its nearest pixel.
    pub open spec fn drag_point(self, point: Point) -> Point {
        let size = self.output.spec_size();
        if self.off_output(point) {
            Point {
                x: clamp(
                    point.x as int,
                    0,
                    max(size.w - 1, 0),
                ) as i32,
                y: clamp(
                    point.y as int,
                    0,
                    max(size.h - 1, 0),
                ) as i32,
            }
        } else {
            point
        }
    }

    /// What a drag to `point` does in `overview`: a drag without a purpose
    /// gets one from its first move and keeps it. A move that is more
    /// vertical than horizontal and ends on a window closes that window;
    /// every other move cycles through the layouts.
    pub open spec fn drag_action(self, overview: Overview, point: Point) -> DragAction {
        let dx = point.x - overview.last_drag_point.x;
        let dy = point.y - overview.last_drag_point.y;
        if overview.drag_action is Idle {
            if magnitude(dx) < magnitude(dy) {
                match overview.spec_layout_position(&self.output, self.layouts, point) {
                    Some(position) => match self.layouts.window_at(position) {
                        Some(window) => DragAction::Close(window.id),
                        None => DragAction::Cycle,
                    },
                    None => DragAction::Cycle,
                }
            } else {
                DragAction::Cycle
            }
        } else {
            overview.drag_action
        }
    }

    /// The overview after a drag to `point`.
    pub open spec fn dragged(self, overview: Overview, point: Point) -> Overview {
        let action = self.drag_action(overview, point);
        Overview {
            hold_timer: None,
            last_drag_point: point,
            last_animation_step: None,
            drag_action: action,
            x_offset: if action is Cycle {
                clamp_i64(
                    overview.x_offset + (point.x - overview.last_drag_point.x)
                        * OFFSET_PER_PIXEL,
                )
            } else {
                overview.x_offset
            },
            y_offset: if action is Close {
                clamp_i64(
                    overview.y_offset + (point.y - overview.last_drag_point.y),
                )
            } else {
                overview.y_offset
            },
        }
    }

    /// The window manager after the touch moved to `point`.
    pub open spec fn on_drag(self, point: Point) -> WindowsView {
        match self.view {
            ViewMode::Overview(overview) => WindowsView {
                view: ViewMode::Overview(self.dragged(overview, point)),
                dirty: true,
                ..self
            },
            ViewMode::DragAndDrop(dnd) => {
                let point = self.drag_point(point);
                WindowsView {
                    view: ViewMode::DragAndDrop(
                        DragAndDrop {
                            touch_position: point,
                            window_position: Point {
                                x: clamp_i32(
                                    dnd.window_position.x + (point.x - dnd.touch_position.x),
                                ),
                                y: clamp_i32(
                                    dnd.window_position.y + (point.y - dnd.touch_position.y),
                                ),
                            },
                            ..dnd
                        },
                    ),
                    dirty: true,
                    ..self
                }
            },
            _ => self,
        }
    }

    /// Whether a move of the touch to `point` ends the momentum of the
    /// drag: the overview is dragged as far as it goes, or a window is
    /// dragged off the output.
    pub open spec fn cancels_velocity(self, point: Point) -> bool {
        match self.view {
            ViewMode::Overview(overview) => self.dragged(overview, point).spec_overdrag_limited(
                self.layouts.layouts.len() as usize,
            ),
            ViewMode::DragAndDrop(_) => self.off_output(point),
            _ => false,
        }
    }

    /// The window manager after the touch was lifted.
    ///
    /// The overview starts its return to rest. A window that is dropped in
    /// one of the two drop areas is staged as primary or as secondary, and
    /// the return to the workspace with it, provided that the window still
    /// exists; dropped elsewhere, it goes back to the overview that it was
    /// picked up in.
    pub open spec fn on_drag_release(self, now: u64) -> WindowsView {
        match self.view {
            ViewMode::Overview(overview) => WindowsView {
                view: ViewMode::Overview(Overview { last_animation_step: Some(now), ..overview }),
                ..self
            },
            ViewMode::DragAndDrop(dnd) => {
                let (primary_bounds, secondary_bounds) = DragAndDrop::spec_drop_bounds(&self.output);
                if primary_bounds.spec_contains(dnd.touch_position) {
                    match self.layouts.position(dnd.window) {
                        Some(position) => WindowsView {
                            layouts: self.layouts.set_primary(self.output, position),
                            ..self
                        }.set_view(now, ViewMode::Workspace),
                        None => self,
                    }
                } else if secondary_bounds.spec_contains(dnd.touch_position) {
                    match self.layouts.position(dnd.window) {
                        Some(position) => WindowsView {
                            layouts: self.layouts.set_secondary(self.output, position),
                            ..self
                        }.set_view(now, ViewMode::Workspace),
                        None => self,
                    }
                } else {
                    self.set_view(now, ViewMode::Overview(Overview::spec_new(dnd.overview_x_offset)))
                }
            },
            _ => self,
        }
    }

    /// The window manager after `gesture`.
    ///
    /// A swipe up leaves the overview for the workspace with no layout
    /// active; from any other view it opens the overview at the active
    /// layout, provided that there are layouts, and ends a fullscreen view.
    /// A swipe to the side in the workspace steps to the next or the
    /// previous layout.
    pub open spec fn on_gesture(self, now: u64, gesture: Gesture) -> WindowsView {
        match (gesture, self.view) {
            (Gesture::Up, ViewMode::Overview(_)) => WindowsView {
                layouts: self.layouts.set_active(None),
                ..self
            }.set_view(now, ViewMode::Workspace),
            (Gesture::Up, view) => if self.layouts.layouts.len() == 0 {
                self
            } else {
                WindowsView {
                    layouts: match view {
                        ViewMode::Fullscreen(id) => self.layouts.change(
                            id,
                            WindowChange::Fullscreen(false),
                        ),
                        _ => self.layouts,
                    },
                    ..self
                }.set_view(
                    now,
                    ViewMode::Overview(Overview::spec_new(self.layouts.active_offset())),
                ).resize_all(now)
            },
            (Gesture::Left, ViewMode::Workspace) => WindowsView {
                layouts: self.layouts.cycle_active(1),
                clock: armed_if(self.layouts.layouts.len() > 0, self.clock, now),
                ..self
            },
            (Gesture::Right, ViewMode::Workspace) => WindowsView {
                layouts: self.layouts.cycle_active(-1isize),
                clock: armed_if(self.layouts.layouts.len() > 0, self.clock, now),
                ..self
            },
            _ => self,
        }
    }

    /// The window manager after a hold on the window at `position` in the
    /// overview has lasted: the drag of that window is staged.
    pub open spec fn start_dnd(self, now: u64, position: LayoutPosition) -> WindowsView {
        match (self.view, self.layouts.window_at(position)) {
            (ViewMode::Overview(overview), Some(window)) => self.set_view(
                now,
                ViewMode::DragAndDrop(DragAndDrop::spec_new(&self.output, &overview, position, window.id)),
            ),
            _ => self,
        }
    }

    /// The window manager after the surface `id` asked to be fullscreen.
    pub open spec fn fullscreen(self, now: u64, id: WindowId) -> WindowsView {
        if self.layouts.position(id).is_some() {
            WindowsView {
                layouts: self.layouts.change(id, WindowChange::Fullscreen(true)),
                ..self
            }.set_view(now, ViewMode::Fullscreen(id)).resize_all(now)
        } else {
            self
        }
    }

    /// The window manager after the surface `id` asked to leave
    /// fullscreen, which concerns it only if it is the fullscreen window.
    pub open spec fn unfullscreen(self, now: u64, id: WindowId) -> WindowsView {
        if self.view == ViewMode::Fullscreen(id) {
            WindowsView {
                layouts: self.layouts.change(id, WindowChange::Fullscreen(false)),
                ..self
            }.set_view(now, ViewMode::Workspace).resize_all(now)
        } else {
            self
        }
    }

    /// The window manager after the toplevel surface `id` was destroyed.
    pub open spec fn reap_xdg(self, now: u64, id: WindowId) -> WindowsView {
        let left = self.unfullscreen(now, id);
        WindowsView {
            layouts: left.layouts.reap(left.output, id),
            clock: armed(left.clock, now),
            ..left
        }
    }

    /// The window manager after the layer shell surface `id` was
    /// destroyed: its exclusive zone is free again, and if that changes
    /// what is reserved, all windows are resized.
    pub open spec fn reap_layer(self, now: u64, id: WindowId) -> WindowsView {
        let output = match self.layers.find(id) {
            Some(window) => window.released(self.output),
            None => self.output,
        };
        let reaped = WindowsView {
            clock: armed(self.clock, now),
            layers: self.layers.reap(id),
            output,
            ..self
        };
        if output.exclusive != self.output.exclusive {
            reaped.resize_all(now)
        } else {
            reaped
        }
    }

    /// The window manager after a popup was added: it is an orphan until
    /// its surface is committed.
    pub open spec fn add_popup(self, popup: Popup) -> WindowsView {
        WindowsView { orphan_popups: self.orphan_popups.push(popup), ..self }
    }

    /// What becomes of the surface `id` as the surface of an orphan when it
    /// is committed.
    ///
    /// An orphan whose parent belongs to a window of the active layout is
    /// adopted by that window. An orphan without a parent is dropped, and
    /// one whose parent is not on the output is to be dismissed.
    pub open spec fn adoption(self, id: WindowId) -> Adoption {
        match index_of(self.orphan_popups, id) {
            None => Adoption::NotOrphan,
            Some(index) => match self.orphan_popups[index].parent {
                None => Adoption::Dropped,
                Some(parent) => match adopter(self.popups, self.layouts.active(), parent) {
                    Some(toplevel) => Adoption::Adopted(toplevel),
                    None => Adoption::Dismissed,
                },
            },
        }
    }

    /// The window manager after the surface `id` was committed as the
    /// surface of an orphan: the first orphan that shows it is an orphan
    /// no more.
    pub open spec fn orphan_surface_commit(self, id: WindowId) -> WindowsView {
        match index_of(self.orphan_popups, id) {
            None => self,
            Some(index) => WindowsView {
                orphan_popups: self.orphan_popups.update(index, self.orphan_popups.last()).drop_last(),
                popups: match self.adoption(id) {
                    Adoption::Adopted(toplevel) => self.popups.push(
                        Popup { toplevel: Some(toplevel), ..self.orphan_popups[index] },
                    ),
                    _ => self.popups,
                },
                ..self
            },
        }
    }

    /// What the surface `id` turns out to be when it is committed.
    pub open spec fn committed(self, id: WindowId) -> Commit {
        if self.layouts.position(id).is_some() {
            Commit::Toplevel
        } else if index_of(self.orphan_popups, id).is_some() {
            Commit::Orphan(self.adoption(id))
        } else if index_of(self.popups, id).is_some() {
            Commit::Popup
        } else if self.layers.find(id).is_some() {
            Commit::Layer
        } else {
            Commit::Unknown
        }
    }

    /// The window manager after the surface `id` committed a buffer of
    /// `size`.
    ///
    /// The tiled windows that show the surface count as changed and as
    /// having acknowledged that size. An orphan is adopted or removed. A
    /// layer shell surface is placed anew, and if that changes what is
    /// reserved, all windows are resized.
    pub open spec fn surface_commit(self, now: u64, id: WindowId, size: Size) -> WindowsView {
        match self.committed(id) {
            Commit::Toplevel => WindowsView {
                layouts: self.layouts.change(id, WindowChange::Commit(size)),
                ..self
            },
            Commit::Orphan(_) => self.orphan_surface_commit(id),
            Commit::Popup => WindowsView { dirty: true, ..self },
            Commit::Layer => {
                let (layers, output) = self.layers.surface_commit(
                    id,
                    size,
                    self.output,
                    self.fullscreen_active(),
                );
                let placed = WindowsView {
                    layers,
                    output,
                    clock: armed_if(self.layers.alive_shows(id), self.clock, now),
                    ..self
                };
                if output.exclusive != self.output.exclusive {
                    placed.resize_all(now)
                } else {
                    placed
                }
            },
            Commit::Unknown => self,
        }
    }

    /// The window manager after the popup surface `id` was destroyed.
    pub open spec fn popup_destroyed(self, id: WindowId) -> WindowsView {
        WindowsView {
            orphan_popups: destroyed(self.orphan_popups, id),
            popups: destroyed(self.popups, id),
            ..self
        }
    }

    /// The window manager without the popups that are dead or whose window
    /// is gone.
    pub open spec fn refresh_popups(self) -> WindowsView {
        WindowsView {
            popups: refreshed(self.popups, |id: WindowId| self.layouts.position(id).is_some()),
            ..self
        }
    }

    /// The window that has the keyboard focus: the focused tiled window if
    /// it still exists, else the primary of the active layout if a tiled
    /// window was in focus, else the focused layer shell window.
    pub open spec fn focused(self) -> Option<WindowId> {
        match self.focused_toplevel() {
            Some(id) => Some(id),
            None => self.layers.focus,
        }
    }

    /// The tiled window that has the keyboard focus.
    pub open spec fn focused_toplevel(self) -> Option<WindowId> {
        match self.layouts.focus {
            Some(id) => if self.layouts.position(id).is_some() {
                Some(id)
            } else {
                match self.layouts.active().primary {
                    Some(window) => Some(window.id),
                    None => None,
                }
            },
            None => None,
        }
    }

    /// The window manager after the keyboard focus was looked up: a focus
    /// on a window that is gone has moved on, and the clients of the
    /// window that lost the focus and of the one that got it were told.
    pub open spec fn focus(self) -> WindowsView {
        let focused = self.focused_toplevel();
        let layouts = LayoutsView {
            focus: if self.layouts.focus.is_some() {
                focused
            } else {
                None
            },
            ..self.layouts
        };
        if self.activated == focused {
            WindowsView { layouts, ..self }
        } else {
            let cleared = match self.activated {
                Some(id) => layouts.change(id, WindowChange::Activated(false)),
                None => layouts,
            };
            WindowsView {
                layouts: match focused {
                    Some(id) => cleared.change(id, WindowChange::Activated(true)),
                    None => cleared,
                },
                activated: focused,
                ..self
            }
        }
    }

    /// Whether anything changed since the last redraw.
    ///
    /// While a window is fullscreen only it and the overlay windows count.
    /// The overview counts as changed while it is away from rest.
    pub open spec fn damaged(self) -> bool {
        self.dirty || match self.view {
            ViewMode::Fullscreen(id) => {
                ||| (self.layouts.position(id) matches Some(found) && self.layouts.window_at(
                    found,
                ).unwrap().dirty)
                ||| any_dirty(self.layers.overlay)
            },
            ViewMode::Overview(overview) => {
                ||| overview.spec_animating_drag(self.layouts.layouts.len() as usize)
                ||| self.layouts.dirty()
                ||| self.layers.dirty()
            },
            _ => self.layouts.dirty() || self.layers.dirty(),
        }
    }

    /// Where the gesture handle is drawn: along the bottom edge of the
    /// output.
    pub open spec fn handle_location(self) -> Point {
        Point { x: 0, y: (self.output.spec_size().h - GESTURE_HANDLE_HEIGHT) as i32 }
    }

    /// The elements that draw the layer shell windows below the tiled
    /// windows.
    pub open spec fn background_elements(self) -> Seq<Element> {
        elements_of(self.layers.background) + elements_of(self.layers.bottom)
    }

    /// The elements that draw a frame at `now`, topmost first.
    ///
    /// Unless a window is fullscreen the gesture handle comes first. The
    /// workspace shows the layer shell windows above the tiled ones, the
    /// active layout and the layer shell windows below. A drag shows the
    /// dragged window and the drop areas in place of those above. The
    /// overview shows its layouts over the layer shell windows below. A
    /// fullscreen view shows the overlay windows and the fullscreen
    /// window.
    pub open spec fn textures(self, now: u64) -> Seq<Element> {
        match self.view {
            ViewMode::Workspace => seq![Element::GestureHandle { location: self.handle_location() }]
                + elements_of(self.layers.top) + elements_of(self.layers.overlay)
                + self.layouts.textures() + self.background_elements(),
            ViewMode::DragAndDrop(dnd) => seq![
                Element::GestureHandle { location: self.handle_location() },
            ] + dnd.drawn(&self.output) + self.layouts.textures() + self.background_elements(),
            ViewMode::Overview(overview) => seq![
                Element::GestureHandle { location: self.handle_location() },
            ] + overview.drawn(&self.output, self.layouts, now).0 + self.background_elements(),
            ViewMode::Fullscreen(id) => elements_of(self.layers.overlay) + (match self.layouts.position(
                id,
            ) {
                Some(found) => seq![Element::spec_plain(self.layouts.window_at(found).unwrap())],
                None => Seq::empty(),
            }),
        }
    }

    /// The window manager after a frame was drawn at `now`: nothing is
    /// left to redraw, and the overview has taken a step back to rest.
    pub open spec fn drawn(self, now: u64) -> WindowsView {
        WindowsView {
            dirty: false,
            view: match self.view {
                ViewMode::Overview(overview) => ViewMode::Overview(
                    overview.drawn(&self.output, self.layouts, now).1,
                ),
                view => view,
            },
            ..self
        }
    }

    /// Whether the overview or a drag out of it is on the output.
    pub open spec fn overview_active(self) -> bool {
        self.view is Overview || self.view is DragAndDrop
    }

    /// The surfaces whose pending buffers are handed to the renderer: those
    /// of the tiled windows, then those of the layer shell windows. While
    /// the overview is open a tiled window is skipped unless the size of
    /// its buffer changed.
    pub open spec fn import_buffers(self) -> Seq<WindowId> {
        importing(self.layouts.windows(), self.overview_active()) + ids_of(self.layers.all())
    }

    /// Whether the surface `id` is on the output.
    pub open spec fn surface_visible(self, id: WindowId) -> bool {
        self.request_frames().contains(id)
    }

    /// The windows whose clients are asked for their next frame: those
    /// that are on the output.
    pub open spec fn request_frames(self) -> Seq<WindowId> {
        match self.view {
            ViewMode::Fullscreen(id) => ids_of(self.layers.overlay) + seq![id],
            ViewMode::Overview(_) | ViewMode::DragAndDrop(_) => ids_of(self.layers.background) + ids_of(
                self.layers.bottom,
            ),
            ViewMode::Workspace => ids_of(self.layers.all()) + Seq::new(
                self.layouts.visible().len(),
                |i: int| self.layouts.visible()[i].id,
            ),
        }
    }
}

/// The surfaces of those of `windows` whose pending buffers are handed to
/// the renderer: while the overview is open, only those whose buffer
/// changed its size.
pub open spec fn importing(windows: Seq<Window>, overview_active: bool) -> Seq<WindowId>
    decreases windows.len(),
{
    if windows.len() == 0 {
        Seq::empty()
    } else {
        let rest = importing(windows.drop_last(), overview_active);
        if !overview_active || windows.last().spec_pending_buffer_resize() {
            rest.push(windows.last().id)
        } else {
            rest
        }
    }
}

/// The surfaces of `windows`.
pub open spec fn ids_of(windows: Seq<LayerWindow>) -> Seq<WindowId> {
    Seq::new(windows.len(), |i: int| windows[i].window.id)
}

/// Adds the surfaces of `windows` to `ids`.
fn collect_ids(windows: &Vec<LayerWindow>, ids: &mut Vec<WindowId>)
    ensures
        final(ids)@ == old(ids)@ + ids_of(windows@),
{
    let mut i: usize = 0;
    assert(ids@ =~= old(ids)@ + ids_of(windows@.take(0)));
    while i < windows.len()
        invariant
            i <= windows@.len(),
            ids@ == old(ids)@ + ids_of(windows@.take(i as int)),
        decreases windows@.len() - i,
    {
        ids.push(windows[i].window.id);
        assert(ids@ =~= old(ids)@ + ids_of(windows@.take(i + 1)));
        i += 1;
    }
    assert(windows@.take(i as int) =~= windows@);
}

/// `value + delta`, stopping at the bounds of the type.
fn add_clamped(value: i64, delta: i64) -> (sum: i64)
    ensures
        sum == clamp_i64(value + delta),
{
    let wide: i128 = value as i128 + delta as i128;
    if wide < i64::MIN as i128 {
        i64::MIN
    } else if wide > i64::MAX as i128 {
        i64::MAX
    } else {
        wide as i64
    }
}

/// The coordinate on a side of length `extent` that is nearest to
/// `value`.
fn clamp_to(value: i32, extent: i32) -> (nearest: i32)
    requires
        extent >= 0,
    ensures
        nearest == clamp(value as int, 0, max(extent - 1, 0)),
{
    let last: i32 = if extent > 0 { extent - 1 } else { 0 };
    if value < 0 {
        0
    } else if value > last {
        last
    } else {
        value
    }
}

/// Container tracking all known clients.
#[derive(Debug)]
pub struct Windows {
    /// Client-independent damage.
    pub dirty: bool,
    layouts: Layouts,
    layers: Layers,
    view: ViewMode,
    staged_view: Option<ViewMode>,
    clock: TransactionClock,
    output: Output,
    /// Cached output state for rendering.
    ///
    /// This is used to tie the transactions to their respective output size
    /// and should be passed to anyone who doesn't communicate with clients
    /// about future updates, but instead tries to calculate things for the
    /// next rendered frame.
    canvas: Canvas,
    /// Orientation independent from the lock state.
    unlocked_orientation: Orientation,
    orientation_locked: bool,
    activated: Option<WindowId>,
    orphan_popups: Vec<Popup>,
    popups: Vec<Popup>,
}

impl View for Windows {
    type V = WindowsView;

    closed spec fn view(&self) -> WindowsView {
        WindowsView {
            dirty: self.dirty,
            layouts: self.layouts@,
            layers: self.layers@,
            view: self.view,
            staged_view: self.staged_view,
            clock: self.clock@,
            output: self.output,
            canvas: self.canvas,
            unlocked_orientation: self.unlocked_orientation,
            orientation_locked: self.orientation_locked,
            activated: self.activated,
            orphan_popups: self.orphan_popups@,
            popups: self.popups@,
        }
    }
}

impl Windows {
    /// A window manager without windows that shows the workspace on
    /// `output`, with the orientation of the output locked.
    pub fn new(output: Output) -> (windows: Self)
        ensures
            windows@ == WindowsView::new(output),
            windows@.layouts.wf(),
            windows@.layouts.distinct(),
    {
        Windows {
            dirty: true,
            layouts: Layouts::new(),
            layers: Layers::new(),
            view: ViewMode::Workspace,
            staged_view: None,
            clock: TransactionClock::new(),
            output,
            canvas: output.canvas(),
            unlocked_orientation: Orientation::Portrait,
            orientation_locked: true,
            activated: None,
            orphan_popups: Vec::new(),
            popups: Vec::new(),
        }
    }

    /// Change the active view.
    fn set_view(&mut self, now: u64, view: ViewMode)
        ensures
            final(self)@ == old(self)@.set_view(now, view),
    {
        self.clock.start(now);
        self.staged_view = Some(view);
    }

    /// Add a new window.
    pub fn add(&mut self, now: u64, surface: WindowId)
        ensures
            final(self)@ == old(self)@.add(now, surface),
            old(self)@.layouts.wf() ==> final(self)@.layouts.wf(),
            old(self)@.layouts.distinct() ==> final(self)@.layouts.distinct(),
    {
        let window = Window::new(surface);
        self.layouts.create(&mut self.clock, now, &self.output, window);
    }

    /// Add a new layer shell window.
    pub fn add_layer(&mut self, layer: Layer, window: LayerWindow)
        ensures
            final(self)@ == old(self)@.add_layer(layer, window),
    {
        let mut window = window;
        window.window.enter();
        self.layers.add(layer, window);
    }

    /// Resize all windows to their expected size.
    pub fn resize_all(&mut self, now: u64)
        ensures
            final(self)@ == old(self)@.resize_all(now),
            final(self)@.output == (Output {
                exclusive: final(self)@.output.exclusive,
                ..old(self)@.output
            }),
            old(self)@.layouts.wf() ==> final(self)@.layouts.wf(),
            old(self)@.layouts.distinct() ==> final(self)@.layouts.distinct(),
    {
        // Check next view after transaction is applied.
        let view = match self.staged_view {
            Some(view) => view,
            None => self.view,
        };
        match view {
            // Resize fullscreen and overlay surfaces in fullscreen view.
            ViewMode::Fullscreen(id) => {
                // Resize fullscreen XDG client.
                let available_fullscreen = self.output.available_fullscreen();
                self.layouts.change(&mut self.clock, now, id, WindowChange::Resize(available_fullscreen));

                // Resize overlay layer clients.
                self.layers.update_dimensions(&mut self.clock, now, &mut self.output, true);
            },
            // Resize all surfaces.
            _ => {
                // Resize XDG windows.
                self.layouts.resize_all(&mut self.clock, now, &self.output);

                // Resize layer shell windows.
                self.layers.update_dimensions(&mut self.clock, now, &mut self.output, false);
            },
        }
    }

    /// Turns the output and resizes all windows to its new extent.
    fn turn(&mut self, now: u64, orientation: Orientation)
        ensures
            final(self)@ == old(self)@.turn(now, orientation),
            final(self)@.output.orientation == orientation,
            old(self)@.layouts.wf() ==> final(self)@.layouts.wf(),
            old(self)@.layouts.distinct() ==> final(self)@.layouts.distinct(),
    {
        // Start transaction to ensure output transaction will be applied.
        self.clock.start(now);

        // Update output orientation.
        self.output.set_orientation(orientation);

        // Resize all windows to new output size.
        self.resize_all(now);
    }

    /// Update output orientation.
    pub fn update_orientation(&mut self, now: u64, orientation: Orientation)
        ensures
            final(self)@ == old(self)@.update_orientation(now, orientation),
            old(self)@.layouts.wf() ==> final(self)@.layouts.wf(),
            old(self)@.layouts.distinct() ==> final(self)@.layouts.distinct(),
    {
        self.unlocked_orientation = orientation;

        // Ignore orientation changes during orientation lock.
        if self.orientation_locked {
            return ;
        }
        self.turn(now, orientation);
    }

    /// Lock the output's orientation.
    pub fn lock_orientation(&mut self, now: u64, orientation: Option<Orientation>)
        ensures
            final(self)@ == old(self)@.lock_orientation(now, orientation),
            final(self)@.orientation_locked,
            final(self)@.unlocked_orientation == old(self)@.unlocked_orientation,
            orientation matches Some(locked) ==> final(self)@.output.orientation == locked,
            old(self)@.layouts.wf() ==> final(self)@.layouts.wf(),
            old(self)@.layouts.distinct() ==> final(self)@.layouts.distinct(),
    {
        // Change to the new locked orientation.
        match orientation {
            Some(orientation) => self.turn(now, orientation),
            None => {},
        }
        self.orientation_locked = true;
    }

    /// Unlock the output's orientation.
    pub fn unlock_orientation(&mut self, now: u64)
        ensures
            final(self)@ == old(self)@.unlock_orientation(now),
            !final(self)@.orientation_locked,
            final(self)@.output.orientation == old(self)@.unlocked_orientation,
            old(self)@.layouts.wf() ==> final(self)@.layouts.wf(),
            old(self)@.layouts.distinct() ==> final(self)@.layouts.distinct(),
    {
        self.orientation_locked = false;
        let orientation = self.unlocked_orientation;
        self.turn(now, orientation);
    }

    /// Attempt to execute pending transactions.
    ///
    /// This will return the duration in milliseconds until the transaction
    /// should be timed out when there is an active transaction but it
    /// cannot be completed yet.
    pub fn update_transaction(&mut self, now: u64) -> (deadline: Option<u64>)
        ensures
            final(self)@ == old(self)@.update_transaction(now),
            deadline == old(self)@.transaction_deadline(now),
            deadline matches Some(millis) ==> millis <= MAX_TRANSACTION_MILLIS,
            deadline.is_none() ==> final(self)@.clock.is_none(),
            old(self)@.clock matches Some(start) && elapsed_millis(start, now)
                > MAX_TRANSACTION_MILLIS ==> deadline.is_none(),
            deadline.is_none() && old(self)@.clock.is_some() ==> final(self)@.layouts.wf(),
            old(self)@.layouts.wf() ==> final(self)@.layouts.wf(),
            old(self)@.layouts.distinct() ==> final(self)@.layouts.distinct(),
    {
        // Skip update if no transaction is active.
        let elapsed: u64 = match self.clock.elapsed(now) {
            Some(elapsed) => elapsed,
            None => {
                return None;
            },
        };

        // Check if the transaction requires updating.
        if elapsed <= MAX_TRANSACTION_MILLIS {
            // Check if all participants are ready.
            let finished = self.layouts.transaction_done() && self.layers.transaction_done();

            // Abort if the transaction is still pending.
            if !finished {
                let delta: u64 = MAX_TRANSACTION_MILLIS - elapsed;
                return Some(delta);
            }
        }
        // Clear transaction timer.
        self.clock.clear();

        // Store old visible window count to see if we need to redraw.
        let old_layout_count: usize = self.layouts.active().window_count();

        // Apply layout/liveliness changes.
        self.layouts.apply_transaction();

        // Update layer shell windows.
        let layer_removed = self.layers.apply_transaction();

        // Apply window management changes.
        match self.staged_view {
            Some(view) => {
                self.dirty = true;
                self.view = view;
                self.staged_view = None;
            },
            None => {},
        }
        self.canvas = self.output.canvas();

        // Close overview if all layouts died.
        if self.layouts.is_empty() {
            self.view = ViewMode::Workspace;
        }
        // Redraw if a visible window has died.
        if old_layout_count != self.layouts.active().window_count() || layer_removed {
            self.dirty = true;
        }
        None
    }

    /// Get immutable reference to the current output.
    pub fn output(&self) -> (output: &Output)
        ensures
            *output == self@.output,
    {
        &self.output
    }

    /// Update the window manager's current output.
    pub fn set_output(&mut self, output: Output)
        ensures
            final(self)@ == (WindowsView { output, canvas: output.spec_canvas(), ..old(self)@ }),
    {
        self.canvas = output.canvas();
        self.output = output;
    }

    /// Output state that the last applied transaction left.
    pub fn canvas(&self) -> (canvas: Canvas)
        ensures
            canvas == self@.canvas,
    {
        self.canvas
    }

    /// The tiled windows.
    pub fn layouts(&self) -> (layouts: &Layouts)
        ensures
            layouts@ == self@.layouts,
    {
        &self.layouts
    }

    /// The layer shell windows.
    pub fn layers(&self) -> (layers: &Layers)
        ensures
            layers@ == self@.layers,
    {
        &self.layers
    }

    /// What is on the output.
    pub fn view_mode(&self) -> (view: ViewMode)
        ensures
            view == self@.view,
    {
        self.view
    }

    /// What will be on the output once the transaction is applied, if a
    /// change of view is staged.
    pub fn staged_view(&self) -> (view: Option<ViewMode>)
        ensures
            view == self@.staged_view,
    {
        self.staged_view
    }

    /// Whether the output keeps its orientation when the device turns.
    pub fn orientation_locked(&self) -> (locked: bool)
        ensures
            locked == self@.orientation_locked,
    {
        self.orientation_locked
    }

    /// Orientation that the device reported last.
    pub fn unlocked_orientation(&self) -> (orientation: Orientation)
        ensures
            orientation == self@.unlocked_orientation,
    {
        self.unlocked_orientation
    }

    /// Find the XDG shell window responsible for a specific surface.
    pub fn find_xdg(&self, surface: WindowId) -> (window: Option<Window>)
        ensures
            window == match self@.layouts.position(surface) {
                Some(position) => self@.layouts.window_at(position),
                None => None,
            },
            window matches Some(found) ==> found.id == surface,
    {
        self.layouts.find_window(surface)
    }

    /// Records that the windows that show the surface `surface` were drawn:
    /// they are not damaged any more.
    pub fn surface_drawn(&mut self, surface: WindowId)
        ensures
            final(self)@ == (WindowsView {
                layouts: old(self)@.layouts.change(surface, WindowChange::Drawn),
                layers: old(self)@.layers.change(surface, WindowChange::Drawn),
                ..old(self)@
            }),
    {
        self.layouts.change(&mut self.clock, 0, surface, WindowChange::Drawn);
        self.layers.change(&mut self.clock, 0, surface, WindowChange::Drawn);
    }

    /// Mark the output for a redraw.
    pub fn set_dirty(&mut self)
        ensures
            final(self)@ == (WindowsView { dirty: true, ..old(self)@ }),
    {
        self.dirty = true;
    }

    /// Start time of the transaction in flight.
    pub fn transaction_start(&self) -> (start: Option<u64>)
        ensures
            start == self@.clock,
    {
        self.clock.started_at()
    }

    /// Clear all window focus.
    fn clear_focus(&mut self)
        ensures
            final(self)@ == old(self)@.clear_focus(),
    {
        self.layouts.set_focus(None);
        self.layers.set_focus(None);
    }

    /// Focus a layer shell surface.
    fn focus_layer_surface(&mut self, window: LayerWindow)
        ensures
            final(self)@ == old(self)@.focus_layer(window),
    {
        if !window.deny_focus {
            self.layouts.set_focus(None);
            self.layers.set_focus(Some(window.window.id));
        }
    }

    /// Handle start of touch input.
    pub fn on_touch_start(&mut self, point: Point)
        ensures
            final(self)@ == old(self)@.on_touch_start(point),
    {
        match self.view {
            ViewMode::Overview(mut overview) => {
                // Hold on overview window stages it for D&D.
                match overview.layout_position(&self.output, &self.layouts, point) {
                    Some(position) => overview.start_hold(position),
                    None => {},
                }
                overview.drag_action = DragAction::Idle;
                overview.last_drag_point = point;
                overview.y_offset = 0;
                self.view = ViewMode::Overview(overview);
            },
            _ => {},
        }
    }

    /// Hand quick touch input.
    pub fn on_tap(&mut self, now: u64, point: Point)
        ensures
            final(self)@ == old(self)@.on_tap(now, point),
            old(self)@.layouts.wf() ==> final(self)@.layouts.wf(),
            old(self)@.layouts.distinct() ==> final(self)@.layouts.distinct(),
    {
        match self.view {
            ViewMode::Overview(mut overview) => {
                overview.cancel_hold();
                self.view = ViewMode::Overview(overview);

                // Click inside window opens it as new primary.
                match overview.layout_position(&self.output, &self.layouts, point) {
                    Some(position) => {
                        self.layouts.set_active(&mut self.clock, now, Some(position.index));
                    },
                    None => {},
                }

                // Return to workspace view.
                //
                // If the click was outside of the focused window, we just close out of
                // the Overview and return to the previous primary/secondary windows.
                self.set_view(now, ViewMode::Workspace);
            },
            ViewMode::Workspace => {
                // Clear focus on gesture handle tap.
                if point.y as i64 >= self.output.size().h as i64 - GESTURE_HANDLE_HEIGHT as i64 {
                    self.clear_focus();
                }
            },
            ViewMode::DragAndDrop(_) | ViewMode::Fullscreen(_) => {},
        }
    }

    /// What a drag to `point` does in `overview`.
    fn drag_purpose(&self, overview: &Overview, point: Point) -> (action: DragAction)
        ensures
            action == self@.drag_action(*overview, point),
    {
        // Lock current drag direction if it hasn't been determined yet.
        match overview.drag_action {
            DragAction::Idle => {
                let dx: i64 = point.x as i64 - overview.last_drag_point.x as i64;
                let dy: i64 = point.y as i64 - overview.last_drag_point.y as i64;
                let horizontal: i64 = if dx >= 0 { dx } else { -dx };
                let vertical: i64 = if dy >= 0 { dy } else { -dy };
                if horizontal < vertical {
                    match overview.layout_position(&self.output, &self.layouts, point) {
                        Some(position) => match self.layouts.window_at(position) {
                            Some(window) => DragAction::Close(window.id),
                            None => DragAction::Cycle,
                        },
                        None => DragAction::Cycle,
                    }
                } else {
                    DragAction::Cycle
                }
            },
            action => action,
        }
    }

    /// Moves the overview with the touch.
    fn drag_overview(&self, overview: Overview, point: Point) -> (dragged: Overview)
        ensures
            dragged == self@.dragged(overview, point),
    {
        let action = self.drag_purpose(&overview, point);
        let dx: i64 = point.x as i64 - overview.last_drag_point.x as i64;
        let dy: i64 = point.y as i64 - overview.last_drag_point.y as i64;
        let mut dragged = overview;
        dragged.last_drag_point = point;
        dragged.drag_action = action;

        // Update drag action.
        match action {
            DragAction::Cycle => {
                dragged.x_offset = add_clamped(overview.x_offset, dx * 6);
            },
            DragAction::Close(_) => {
                dragged.y_offset = add_clamped(overview.y_offset, dy);
            },
            DragAction::Idle => {},
        }
        dragged.last_animation_step = None;
        dragged.cancel_hold();
        dragged
    }

    /// Moves the dragged window with the touch.
    fn drag_window(&self, dnd: DragAndDrop, point: Point) -> (dragged: (DragAndDrop, bool))
        ensures
            dragged.1 == self@.off_output(point),
            dragged.0 == (DragAndDrop {
                touch_position: self@.drag_point(point),
                window_position: Point {
                    x: clamp_i32(
                        dnd.window_position.x + (self@.drag_point(point).x - dnd.touch_position.x),
                    ),
                    y: clamp_i32(
                        dnd.window_position.y + (self@.drag_point(point).y - dnd.touch_position.y),
                    ),
                },
                ..dnd
            }),
    {
        // Clamp if touch position is outside the screen.
        let size = self.output.size();
        let mut point = point;
        let outside = point.x < 0 || point.x > size.w || point.y < 0 || point.y > size.h;
        if outside {
            point.x = clamp_to(point.x, size.w);
            point.y = clamp_to(point.y, size.h);
        }
        let mut dragged = dnd;
        dragged.window_position = Point {
            x: saturate(
                dnd.window_position.x as i64 + (point.x as i64 - dnd.touch_position.x as i64),
            ),
            y: saturate(
                dnd.window_position.y as i64 + (point.y as i64 - dnd.touch_position.y as i64),
            ),
        };
        dragged.touch_position = point;
        (dragged, outside)
    }

    /// Handle a touch drag; tells whether the momentum of the drag ends
    /// with it.
    pub fn on_drag(&mut self, point: Point) -> (cancel_velocity: bool)
        ensures
            final(self)@ == old(self)@.on_drag(point),
            cancel_velocity == old(self)@.cancels_velocity(point),
    {
        match self.view {
            ViewMode::Overview(overview) => {
                let dragged = self.drag_overview(overview, point);

                // Cancel velocity once drag actions are completed.
                let cancel_velocity = dragged.overdrag_limited(self.layouts.len());
                self.view = ViewMode::Overview(dragged);

                // Redraw when cycling through the overview.
                self.dirty = true;

                cancel_velocity
            },
            ViewMode::DragAndDrop(dnd) => {
                // Cancel velocity if touch position is outside the screen.
                let (dragged, outside) = self.drag_window(dnd, point);
                self.view = ViewMode::DragAndDrop(dragged);

                // Redraw when the D&D window is moved.
                self.dirty = true;

                outside
            },
            ViewMode::Fullscreen(_) | ViewMode::Workspace => false,
        }
    }

    /// Handle touch drag release.
    pub fn on_drag_release(&mut self, now: u64)
        ensures
            final(self)@ == old(self)@.on_drag_release(now),
            old(self)@.layouts.wf() ==> final(self)@.layouts.wf(),
            old(self)@.layouts.distinct() ==> final(self)@.layouts.distinct(),
    {
        match self.view {
            ViewMode::Overview(mut overview) => {
                overview.last_animation_step = Some(now);
                self.view = ViewMode::Overview(overview);
            },
            ViewMode::DragAndDrop(dnd) => {
                let (primary_bounds, secondary_bounds) = dnd.drop_bounds(&self.output);
                if primary_bounds.contains(dnd.touch_position) {
                    match self.layouts.position(dnd.window) {
                        Some(position) => {
                            self.layouts.set_primary(&mut self.clock, now, &self.output, position);
                            self.set_view(now, ViewMode::Workspace);
                        },
                        None => {},
                    }
                } else if secondary_bounds.contains(dnd.touch_position) {
                    match self.layouts.position(dnd.window) {
                        Some(position) => {
                            self.layouts.set_secondary(&mut self.clock, now, &self.output, position);
                            self.set_view(now, ViewMode::Workspace);
                        },
                        None => {},
                    }
                } else {
                    let overview = Overview::new(dnd.overview_x_offset);
                    self.set_view(now, ViewMode::Overview(overview));
                }
            },
            ViewMode::Fullscreen(_) | ViewMode::Workspace => {},
        }
    }

    /// Handle touch gestures.
    pub fn on_gesture(&mut self, now: u64, gesture: Gesture)
        ensures
            final(self)@ == old(self)@.on_gesture(now, gesture),
            old(self)@.layouts.wf() ==> final(self)@.layouts.wf(),
            old(self)@.layouts.distinct() ==> final(self)@.layouts.distinct(),
    {
        match gesture {
            Gesture::Up => {
                match self.view {
                    ViewMode::Overview(_) => {
                        self.layouts.set_active(&mut self.clock, now, None);
                        self.set_view(now, ViewMode::Workspace);
                    },
                    view => {
                        if !self.layouts.is_empty() {
                            // Unset fullscreen XDG state if it's currently active.
                            match view {
                                ViewMode::Fullscreen(id) => {
                                    self.layouts.change(
                                        &mut self.clock,
                                        now,
                                        id,
                                        WindowChange::Fullscreen(false),
                                    );
                                },
                                _ => {},
                            }

                            // Change view and resize windows.
                            let overview = Overview::new(self.layouts.active_offset());
                            self.set_view(now, ViewMode::Overview(overview));
                            self.resize_all(now);
                        }
                    },
                }
            },
            Gesture::Left => {
                match self.view {
                    ViewMode::Workspace => self.layouts.cycle_active(&mut self.clock, now, 1),
                    _ => {},
                }
            },
            Gesture::Right => {
                match self.view {
                    ViewMode::Workspace => self.layouts.cycle_active(&mut self.clock, now, -1),
                    _ => {},
                }
            },
        }
    }

    /// Check which surface is at a specific touch point.
    ///
    /// If the window at the touch location accepts keyboard input, this
    /// function will also change focus to the root window associated with
    /// the touch surface.
    pub fn touch_surface_at(&mut self, position: Point) -> (surface: Option<WindowId>)
        ensures
            final(self)@ == old(self)@.touch_surface_at(position),
            surface == old(self)@.touched(position),
    {
        // Prevent window interaction in Overview/DnD.
        match self.view {
            ViewMode::Workspace => {},
            ViewMode::Fullscreen(id) => {
                match self.layers.overlay_window_at(position) {
                    Some(window) => {
                        self.focus_layer_surface(window);
                        return Some(window.window.id);
                    },
                    None => {},
                }
                return match self.layouts.position(id) {
                    Some(found) => match self.layouts.window_at(found) {
                        Some(window) => if window.contains(position) {
                            Some(id)
                        } else {
                            None
                        },
                        None => None,
                    },
                    None => None,
                };
            },
            _ => {
                return None;
            },
        }

        // Search for topmost clicked surface.
        match self.layers.foreground_window_at(position) {
            Some(window) => {
                self.focus_layer_surface(window);
                return Some(window.window.id);
            },
            None => {},
        }
        let active_layout = self.layouts.active();
        match active_layout.primary {
            Some(window) => {
                if window.contains(position) {
                    self.layouts.set_focus(Some(window.id));
                    self.layers.set_focus(None);
                    return Some(window.id);
                }
            },
            None => {},
        }
        match active_layout.secondary {
            Some(window) => {
                if window.contains(position) {
                    self.layouts.set_focus(Some(window.id));
                    self.layers.set_focus(None);
                    return Some(window.id);
                }
            },
            None => {},
        }
        match self.layers.background_window_at(position) {
            Some(window) => {
                self.focus_layer_surface(window);
                return Some(window.window.id);
            },
            None => {},
        }

        // Clear focus if touch wasn't on any surface.
        //
        // NOTE: We can't just always clear focus since a layer shell surface that
        // denies focus should still return the touched surface but not clear
        // the focus.
        self.clear_focus();

        None
    }

    /// Start Overview window Drag & Drop.
    pub fn start_dnd(&mut self, now: u64, layout_position: LayoutPosition)
        ensures
            final(self)@ == old(self)@.start_dnd(now, layout_position),
    {
        let overview = match self.view {
            ViewMode::Overview(overview) => overview,
            _ => {
                return ;
            },
        };

        // Convert layout position to window.
        let window = match self.layouts.window_at(layout_position) {
            Some(window) => window,
            None => {
                return ;
            },
        };
        let dnd = DragAndDrop::new(&self.output, &overview, layout_position, window.id);
        self.set_view(now, ViewMode::DragAndDrop(dnd));
    }

    /// Fullscreen the supplied XDG surface.
    pub fn fullscreen(&mut self, now: u64, surface: WindowId)
        ensures
            final(self)@ == old(self)@.fullscreen(now, surface),
            old(self)@.layouts.wf() ==> final(self)@.layouts.wf(),
            old(self)@.layouts.distinct() ==> final(self)@.layouts.distinct(),
    {
        if self.layouts.position(surface).is_some() {
            // Update window's XDG state.
            self.layouts.change(&mut self.clock, now, surface, WindowChange::Fullscreen(true));

            // Resize windows and change view.
            self.set_view(now, ViewMode::Fullscreen(surface));
            self.resize_all(now);
        }
    }

    /// Unfullscreen the supplied XDG surface, if it is currently fullscreened.
    pub fn unfullscreen(&mut self, now: u64, surface: WindowId)
        ensures
            final(self)@ == old(self)@.unfullscreen(now, surface),
            old(self)@.layouts.wf() ==> final(self)@.layouts.wf(),
            old(self)@.layouts.distinct() ==> final(self)@.layouts.distinct(),
    {
        match self.view {
            ViewMode::Fullscreen(id) => {
                if id == surface {
                    // Update window's XDG state.
                    self.layouts.change(&mut self.clock, now, surface, WindowChange::Fullscreen(false));

                    // Resize windows and change view.
                    self.set_view(now, ViewMode::Workspace);
                    self.resize_all(now);
                }
            },
            _ => {},
        }
    }

    /// Stage dead XDG shell window for reaping.
    pub fn reap_xdg(&mut self, now: u64, surface: WindowId)
        ensures
            final(self)@ == old(self)@.reap_xdg(now, surface),
            final(self)@.clock.is_some(),
            old(self)@.layouts.wf() ==> final(self)@.layouts.wf(),
            old(self)@.layouts.distinct() ==> final(self)@.layouts.distinct(),
    {
        // Remove fullscreen if this client was fullscreened.
        self.unfullscreen(now, surface);

        // Reap layout windows.
        self.layouts.reap(&mut self.clock, now, &self.output, surface);
    }

    /// Stage dead layer shell window for reaping.
    pub fn reap_layer(&mut self, now: u64, surface: WindowId)
        ensures
            final(self)@ == old(self)@.reap_layer(now, surface),
            final(self)@.clock.is_some(),
            old(self)@.layouts.wf() ==> final(self)@.layouts.wf(),
            old(self)@.layouts.distinct() ==> final(self)@.layouts.distinct(),
    {
        // Handle layer shell death.
        let old_exclusive = self.output.exclusive();
        match self.layers.find(surface) {
            Some(window) => {
                match window.edge {
                    Some(edge) => {
                        let mut exclusive = self.output.exclusive;
                        exclusive.reset(edge, if window.exclusive_zone > 0 { window.exclusive_zone } else { 0 });
                        self.output.exclusive = exclusive;
                    },
                    None => {},
                }
            },
            None => {},
        }

        // Start transaction to ensure window is reaped even without any resize.
        self.layers.reap(&mut self.clock, now, surface);

        // Resize windows if reserved layer space changed.
        if self.output.exclusive() != old_exclusive {
            self.resize_all(now);
        }
    }

    /// Add a new popup window.
    pub fn add_popup(&mut self, popup: Popup)
        ensures
            final(self)@ == old(self)@.add_popup(popup),
    {
        self.orphan_popups.push(popup);
    }

    /// Handle orphan popup surface commits.
    ///
    /// After the first surface commit, every popup should have a parent set.
    /// This function puts it at the correct location in the window tree
    /// below its parent.
    ///
    /// Popups will be dismissed if a surface commit is made for them without
    /// any parent set. They will also be dismissed if the parent is not
    /// currently visible.
    pub fn orphan_surface_commit(&mut self, root_surface: WindowId) -> (adoption: Adoption)
        ensures
            final(self)@ == old(self)@.orphan_surface_commit(root_surface),
            adoption == old(self)@.adoption(root_surface),
    {
        let index: usize = match find(&self.orphan_popups, root_surface) {
            Some(index) => index,
            None => {
                return Adoption::NotOrphan;
            },
        };
        let mut popup = self.orphan_popups.swap_remove(index);
        let parent: WindowId = match popup.parent {
            Some(parent) => parent,
            None => {
                return Adoption::Dropped;
            },
        };
        let active_layout = self.layouts.active();

        // Try and add it to the primary window.
        match active_layout.primary {
            Some(primary) => {
                if owns(&self.popups, primary.id, parent) {
                    popup.toplevel = Some(primary.id);
                    self.popups.push(popup);
                    return Adoption::Adopted(primary.id);
                }
            },
            None => {},
        }
        // Try and add it to the secondary window.
        match active_layout.secondary {
            Some(secondary) => {
                if owns(&self.popups, secondary.id, parent) {
                    popup.toplevel = Some(secondary.id);
                    self.popups.push(popup);
                    return Adoption::Adopted(secondary.id);
                }
            },
            None => {},
        }
        // Dismiss popup if it wasn't added to either of the visible windows.
        Adoption::Dismissed
    }

    /// Handle a surface commit for any window; tells what the surface
    /// turned out to be.
    pub fn surface_commit(&mut self, now: u64, surface: WindowId, size: Size) -> (commit: Commit)
        ensures
            final(self)@ == old(self)@.surface_commit(now, surface, size),
            commit == old(self)@.committed(surface),
            old(self)@.layouts.wf() ==> final(self)@.layouts.wf(),
            old(self)@.layouts.distinct() ==> final(self)@.layouts.distinct(),
    {
        // Handle XDG surface commits.
        if self.layouts.position(surface).is_some() {
            self.layouts.change(&mut self.clock, now, surface, WindowChange::Commit(size));
            return Commit::Toplevel;
        }
        // Handle popup orphan adoption.
        match self.orphan_surface_commit(surface) {
            Adoption::NotOrphan => {},
            adoption => {
                return Commit::Orphan(adoption);
            },
        }
        // Apply popup surface commits.
        if find(&self.popups, surface).is_some() {
            self.dirty = true;
            return Commit::Popup;
        }
        // Abort if we can't find any window for this surface.
        if self.layers.find(surface).is_none() {
            return Commit::Unknown;
        }
        // Handle layer shell surface commits.
        let old_exclusive = self.output.exclusive();
        let fullscreen_active = match self.view {
            ViewMode::Fullscreen(_) => true,
            _ => false,
        };
        self.layers.surface_commit(
            &mut self.clock,
            now,
            surface,
            size,
            &mut self.output,
            fullscreen_active,
        );

        // Resize windows after exclusive zone changes.
        if self.output.exclusive() != old_exclusive {
            self.resize_all(now);
        }
        Commit::Layer
    }

    /// Records that a popup surface was destroyed.
    pub fn popup_destroyed(&mut self, surface: WindowId)
        ensures
            final(self)@ == old(self)@.popup_destroyed(surface),
    {
        destroy(&mut self.orphan_popups, surface);
        destroy(&mut self.popups, surface);
    }

    /// Reap dead XDG popup windows.
    pub fn refresh_popups(&mut self)
        ensures
            final(self)@ == old(self)@.refresh_popups(),
    {
        let count: usize = self.popups.len();
        let ghost kept = |id: WindowId| self@.layouts.position(id).is_some();
        let mut popups: Vec<Popup> = Vec::new();
        let mut i: usize = 0;
        while i < count
            invariant
                i <= count,
                count == self.popups@.len(),
                self@ == old(self)@,
                kept == (|id: WindowId| old(self)@.layouts.position(id).is_some()),
                popups@ == refreshed(self.popups@.take(i as int), kept),
            decreases count - i,
        {
            let popup = self.popups[i];
            proof {
                assert(self.popups@.take(i + 1).drop_last() =~= self.popups@.take(i as int));
                assert(self.popups@.take(i + 1).last() == popup);
            }
            let shown = match popup.toplevel {
                Some(toplevel) => self.layouts.position(toplevel).is_some(),
                None => false,
            };
            if popup.alive && shown {
                popups.push(popup);
            }
            i += 1;
        }
        assert(self.popups@.take(count as int) =~= self.popups@);
        self.popups = popups;
    }

    /// The popups that are shown over a window.
    pub fn popups(&self) -> (popups: &Vec<Popup>)
        ensures
            popups@ == self@.popups,
    {
        &self.popups
    }

    /// The popups that are not shown over a window yet.
    pub fn orphan_popups(&self) -> (popups: &Vec<Popup>)
        ensures
            popups@ == self@.orphan_popups,
    {
        &self.orphan_popups
    }

    /// Current window focus.
    pub fn focus(&mut self) -> (surface: Option<WindowId>)
        ensures
            final(self)@ == old(self)@.focus(),
            surface == old(self)@.focused(),
            old(self)@.layouts.wf() ==> final(self)@.layouts.wf(),
            old(self)@.layouts.distinct() ==> final(self)@.layouts.distinct(),
    {
        let surface: Option<WindowId> = match self.layouts.focus() {
            Some(id) => {
                if self.layouts.position(id).is_some() {
                    // Use focused surface if the window is still alive.
                    Some(id)
                } else {
                    // Fallback to primary if secondary perished.
                    let primary = match self.layouts.active().primary {
                        Some(window) => Some(window.id),
                        None => None,
                    };
                    self.layouts.set_focus(primary);
                    primary
                }
            },
            // Do not upgrade if toplevel is explicitly unfocused.
            None => None,
        };

        // Update window activation state.
        if self.activated != surface {
            // Clear old activated flag.
            match self.activated {
                Some(activated) => {
                    self.layouts.change(&mut self.clock, 0, activated, WindowChange::Activated(false));
                },
                None => {},
            }
            // Set new activated flag.
            match surface {
                Some(surface) => {
                    self.layouts.change(&mut self.clock, 0, surface, WindowChange::Activated(true));
                },
                None => {},
            }
            self.activated = surface;
        }
        match surface {
            Some(surface) => Some(surface),
            // Check for layer-shell window focus.
            None => self.layers.focus(),
        }
    }

    /// Check if any window was damaged since the last redraw.
    pub fn damaged(&self) -> (damaged: bool)
        ensures
            damaged == self@.damaged(),
    {
        if self.dirty {
            return true;
        }
        match self.view {
            // Check only fullscreened and overlay shell windows in fullscreen view.
            ViewMode::Fullscreen(id) => {
                let window_dirty = match self.layouts.position(id) {
                    Some(found) => match self.layouts.window_at(found) {
                        Some(window) => window.dirty(),
                        None => false,
                    },
                    None => false,
                };
                window_dirty || self.layers.overlay_dirty()
            },
            // Redraw continuously during overview animations.
            ViewMode::Overview(overview) => {
                overview.animating_drag(self.layouts.len()) || self.layouts.dirty()
                    || self.layers.dirty()
            },
            // Check all windows for damage outside of fullscreen.
            _ => self.layouts.dirty() || self.layers.dirty(),
        }
    }

    /// Get all textures for rendering.
    pub fn textures(&mut self, now: u64) -> (textures: Vec<Element>)
        ensures
            textures@ == old(self)@.textures(now),
            final(self)@ == old(self)@.drawn(now),
    {
        // Clear global damage.
        self.dirty = false;

        let mut textures: Vec<Element> = Vec::new();

        // Draw gesture handle when not in fullscreen view.
        match self.view {
            ViewMode::Fullscreen(_) => {},
            _ => {
                // Calculate position for gesture handle.
                let output_height: i32 = self.output.size().h;
                let location = Point { x: 0, y: output_height - GESTURE_HANDLE_HEIGHT };
                textures.push(Element::GestureHandle { location });
            },
        }
        match self.view {
            ViewMode::Workspace => {
                self.layers.draw_foreground(&mut textures);
                self.layouts.textures(&mut textures);
                self.layers.draw_background(&mut textures);
            },
            ViewMode::DragAndDrop(dnd) => {
                let mut drawn = dnd.draw(&self.output);
                textures.append(&mut drawn);
                self.layouts.textures(&mut textures);
                self.layers.draw_background(&mut textures);
            },
            ViewMode::Overview(mut overview) => {
                let mut drawn = overview.draw(&self.output, &self.layouts, now);
                self.view = ViewMode::Overview(overview);
                textures.append(&mut drawn);
                self.layers.draw_background(&mut textures);
            },
            ViewMode::Fullscreen(id) => {
                self.layers.draw_overlay(&mut textures);
                match self.layouts.position(id) {
                    Some(found) => match self.layouts.window_at(found) {
                        Some(window) => textures.push(Element::plain(window)),
                        None => {},
                    },
                    None => {},
                }
            },
        }
        assert(textures@ =~= old(self)@.textures(now));
        textures
    }

    /// Request new frames for all visible windows: tells which clients are
    /// to be asked.
    pub fn request_frames(&self) -> (surfaces: Vec<WindowId>)
        ensures
            surfaces@ == self@.request_frames(),
    {
        let mut surfaces: Vec<WindowId> = Vec::new();
        match self.view {
            ViewMode::Fullscreen(id) => {
                collect_ids(&self.layers.overlay(), &mut surfaces);
                surfaces.push(id);
            },
            ViewMode::Overview(_) | ViewMode::DragAndDrop(_) => {
                collect_ids(&self.layers.background(), &mut surfaces);
                assert(ids_of(self@.layers.background + self@.layers.bottom) =~= ids_of(
                    self@.layers.background,
                ) + ids_of(self@.layers.bottom));
            },
            ViewMode::Workspace => {
                collect_ids(&self.layers.iter(), &mut surfaces);
                let visible = self.layouts.with_visible();
                let ghost before = surfaces@;
                let mut i: usize = 0;
                while i < visible.len()
                    invariant
                        i <= visible@.len(),
                        surfaces@ == before + Seq::new(i as nat, |j: int| visible@[j].id),
                    decreases visible@.len() - i,
                {
                    surfaces.push(visible[i].id);
                    assert(surfaces@ =~= before + Seq::new((i + 1) as nat, |j: int| visible@[j].id));
                    i += 1;
                }
            },
        }
        assert(surfaces@ =~= self@.request_frames());
        surfaces
    }

    /// Check if a surface is currently visible.
    pub fn surface_visible(&self, surface: WindowId) -> (visible: bool)
        ensures
            visible == self@.surface_visible(surface),
    {
        let surfaces = self.request_frames();
        let mut i: usize = 0;
        while i < surfaces.len()
            invariant
                i <= surfaces@.len(),
                surfaces@ == self@.request_frames(),
                forall|j: int| 0 <= j < i ==> surfaces@[j] != surface,
            decreases surfaces@.len() - i,
        {
            if surfaces[i] == surface {
                assert(surfaces@[i as int] == surface);
                return true;
            }
            i += 1;
        }
        false
    }

    /// Import pending buffers for all windows: tells which surfaces have
    /// their buffers handed to the renderer.
    pub fn import_buffers(&self) -> (surfaces: Vec<WindowId>)
        ensures
            surfaces@ == self@.import_buffers(),
    {
        // Skip buffer imports in overview.
        let overview_active = match self.view {
            ViewMode::Overview(_) | ViewMode::DragAndDrop(_) => true,
            _ => false,
        };
        let windows = self.layouts.windows();
        let mut surfaces: Vec<WindowId> = Vec::new();
        let mut i: usize = 0;
        assert(windows@.take(0) =~= Seq::<Window>::empty());
        while i < windows.len()
            invariant
                i <= windows@.len(),
                surfaces@ == importing(windows@.take(i as int), overview_active),
            decreases windows@.len() - i,
        {
            let window = windows[i];
            proof {
                assert(windows@.take(i + 1).drop_last() =~= windows@.take(i as int));
                assert(windows@.take(i + 1).last() == window);
            }
            // Ignore overview updates unless buffer size changed because of rotation.
            if !overview_active || window.pending_buffer_resize() {
                surfaces.push(window.id);
            }
            i += 1;
        }
        assert(windows@.take(i as int) =~= windows@);
        collect_ids(&self.layers.iter(), &mut surfaces);
        surfaces
    }
}

} // verus!
