//! Layer shell windows.

use vstd::prelude::*;
use crate::drawing::Element;
use crate::geometry::{non_negative_i32, Point, Rectangle, Size};
use crate::output::{Edge, Output};
use crate::transaction::{armed, TransactionClock};
use crate::window::{Window, WindowChange, WindowId};

verus! {

/// Stacking layer of a layer shell window, lowest first.
#[derive(Clone, Copy, Debug, PartialEq, Eq, Structural)]
pub enum Layer {
    Background,
    Bottom,
    Top,
    Overlay,
}

/// A window that is anchored to the output rather than tiled.
#[derive(Clone, Copy, Debug, PartialEq, Eq, Structural)]
pub struct LayerWindow {
    /// Surface and geometry of the window.
    pub window: Window,
    /// Edge that the window is anchored to, if it is anchored to one.
    pub edge: Option<Edge>,
    /// Depth of the strip along the edge that the window keeps to itself.
    pub exclusive_zone: i32,
    /// Whether the window refuses the keyboard focus.
    pub deny_focus: bool,
}

impl LayerWindow {
    /// A new window for the surface `id`.
    pub fn new(id: WindowId, edge: Option<Edge>, exclusive_zone: i32, deny_focus: bool) -> (window:
        Self)
        ensures
            window == (LayerWindow { window: Window::spec_new(id), edge, exclusive_zone, deny_focus }),
    {
        LayerWindow { window: Window::new(id), edge, exclusive_zone, deny_focus }
    }

    /// Where the window goes on `output`.
    ///
    /// An anchored window gets the strip of its exclusive zone along its
    /// edge. A window without an edge gets the area that the strips leave,
    /// or all of the output while a window is fullscreen.
    pub open spec fn placement(self, output: Output, fullscreen_active: bool) -> Rectangle {
        let size = output.spec_size();
        let depth = non_negative_i32(self.exclusive_zone);
        match self.edge {
            Some(Edge::Top) => Rectangle {
                loc: Point { x: 0, y: 0 },
                size: Size { w: size.w, h: depth },
            },
            Some(Edge::Bottom) => Rectangle {
                loc: Point { x: 0, y: (size.h - depth) as i32 },
                size: Size { w: size.w, h: depth },
            },
            Some(Edge::Left) => Rectangle {
                loc: Point { x: 0, y: 0 },
                size: Size { w: depth, h: size.h },
            },
            Some(Edge::Right) => Rectangle {
                loc: Point { x: (size.w - depth) as i32, y: 0 },
                size: Size { w: depth, h: size.h },
            },
            None => if fullscreen_active {
                output.spec_available_fullscreen()
            } else {
                output.spec_available()
            },
        }
    }

    /// The output after the window has claimed its exclusive zone; a dead
    /// window claims nothing.
    pub open spec fn claimed(self, output: Output) -> Output {
        match self.edge {
            Some(edge) if self.window.alive => Output {
                exclusive: output.exclusive.spec_claim(edge, non_negative_i32(self.exclusive_zone)),
                ..output
            },
            _ => output,
        }
    }

    /// The output after the window has given up its exclusive zone.
    pub open spec fn released(self, output: Output) -> Output {
        match self.edge {
            Some(edge) => Output {
                exclusive: output.exclusive.spec_reset(edge, non_negative_i32(self.exclusive_zone)),
                ..output
            },
            None => output,
        }
    }

    /// The window after its place on `output` was requested for it; of a
    /// dead window nothing is requested.
    pub open spec fn placed(self, output: Output, fullscreen_active: bool) -> LayerWindow {
        if self.window.alive {
            LayerWindow {
                window: self.window.resized(self.placement(output, fullscreen_active)),
                ..self
            }
        } else {
            self
        }
    }

    /// Requests the window's place on the output and reserves its exclusive
    /// zone there.
    pub fn update_dimensions(
        &mut self,
        clock: &mut TransactionClock,
        now: u64,
        output: &mut Output,
        fullscreen_active: bool,
    )
        ensures
            *final(self) == old(self).placed(*old(output), fullscreen_active),
            *final(output) == old(self).claimed(*old(output)),
            final(clock)@ == if old(self).window.alive {
                armed(old(clock)@, now)
            } else {
                old(clock)@
            },
    {
        if !self.window.alive() {
            return ;
        }
        let size = output.size();
        let depth: i32 = if self.exclusive_zone > 0 { self.exclusive_zone } else { 0 };
        let rectangle = match self.edge {
            Some(Edge::Top) => Rectangle {
                loc: Point { x: 0, y: 0 },
                size: Size { w: size.w, h: depth },
            },
            Some(Edge::Bottom) => Rectangle {
                loc: Point { x: 0, y: size.h - depth },
                size: Size { w: size.w, h: depth },
            },
            Some(Edge::Left) => Rectangle {
                loc: Point { x: 0, y: 0 },
                size: Size { w: depth, h: size.h },
            },
            Some(Edge::Right) => Rectangle {
                loc: Point { x: size.w - depth, y: 0 },
                size: Size { w: depth, h: size.h },
            },
            None => if fullscreen_active {
                output.available_fullscreen()
            } else {
                output.available()
            },
        };
        match self.edge {
            Some(edge) => {
                let mut exclusive = output.exclusive;
                exclusive.claim(edge, depth);
                output.exclusive = exclusive;
            },
            None => {},
        }
        self.window.set_dimensions(clock, now, rectangle);
    }
}

/// The windows of one layer once a transaction is over: the dead ones are
/// gone, the pending geometry of the others is in effect.
pub open spec fn pruned(windows: Seq<LayerWindow>) -> Seq<LayerWindow>
    decreases windows.len(),
{
    if windows.len() == 0 {
        Seq::empty()
    } else {
        let rest = pruned(windows.drop_last());
        let last = windows.last();
        if last.window.alive {
            rest.push(LayerWindow { window: last.window.applied(), ..last })
        } else {
            rest
        }
    }
}

/// The topmost of `windows` that `point` lies on; later windows are above
/// earlier ones.
pub open spec fn topmost_at(windows: Seq<LayerWindow>, point: Point) -> Option<LayerWindow>
    decreases windows.len(),
{
    if windows.len() == 0 {
        None
    } else if windows.last().window.spec_contains(point) {
        Some(windows.last())
    } else {
        topmost_at(windows.drop_last(), point)
    }
}

/// The topmost of `windows` that shows the surface `id`.
pub open spec fn topmost_of(windows: Seq<LayerWindow>, id: WindowId) -> Option<LayerWindow>
    decreases windows.len(),
{
    if windows.len() == 0 {
        None
    } else if windows.last().window.id == id {
        Some(windows.last())
    } else {
        topmost_of(windows.drop_last(), id)
    }
}

/// The windows of one layer after each was placed on the output in turn,
/// and the output with the zones that they claimed.
pub open spec fn placed_all(
    windows: Seq<LayerWindow>,
    output: Output,
    fullscreen_active: bool,
) -> (Seq<LayerWindow>, Output)
    decreases windows.len(),
{
    if windows.len() == 0 {
        (Seq::empty(), output)
    } else {
        let (rest, claimed) = placed_all(windows.drop_last(), output, fullscreen_active);
        (
            rest.push(windows.last().placed(claimed, fullscreen_active)),
            windows.last().claimed(claimed),
        )
    }
}

/// The windows of one layer after those that show the surface `id` were
/// placed on the output in turn, and the output with the zones that they
/// claimed.
pub open spec fn placed_surface(
    windows: Seq<LayerWindow>,
    output: Output,
    fullscreen_active: bool,
    id: WindowId,
) -> (Seq<LayerWindow>, Output)
    decreases windows.len(),
{
    if windows.len() == 0 {
        (Seq::empty(), output)
    } else {
        let (rest, claimed) = placed_surface(windows.drop_last(), output, fullscreen_active, id);
        if windows.last().window.id == id {
            (
                rest.push(windows.last().placed(claimed, fullscreen_active)),
                windows.last().claimed(claimed),
            )
        } else {
            (rest.push(windows.last()), claimed)
        }
    }
}

/// The windows of one layer after `change` happened to those that show the
/// surface `id`.
pub open spec fn changed(windows: Seq<LayerWindow>, id: WindowId, change: WindowChange) -> Seq<
    LayerWindow,
> {
    Seq::new(
        windows.len(),
        |i: int|
            if windows[i].window.id == id {
                LayerWindow { window: windows[i].window.changed(change), ..windows[i] }
            } else {
                windows[i]
            },
    )
}

/// Whether any of `windows` is alive.
pub open spec fn any_alive(windows: Seq<LayerWindow>) -> bool {
    exists|i: int| 0 <= i < windows.len() && (#[trigger] windows[i]).window.alive
}

/// Whether any of `windows` is alive and shows the surface `id`.
pub open spec fn any_alive_shows(windows: Seq<LayerWindow>, id: WindowId) -> bool {
    exists|i: int|
        0 <= i < windows.len() && (#[trigger] windows[i]).window.alive && windows[i].window.id == id
}

/// Whether any of `windows` shows the surface `id`.
pub open spec fn any_shows(windows: Seq<LayerWindow>, id: WindowId) -> bool {
    exists|i: int| 0 <= i < windows.len() && (#[trigger] windows[i]).window.id == id
}

/// The elements that draw `windows`, lowest first.
pub open spec fn elements_of(windows: Seq<LayerWindow>) -> Seq<Element> {
    Seq::new(windows.len(), |i: int| Element::spec_plain(windows[i].window))
}

/// What the layers hold, as far as contracts are concerned.
pub struct LayersView {
    /// Layer shell window that has the focus.
    pub focus: Option<WindowId>,
    pub background: Seq<LayerWindow>,
    pub bottom: Seq<LayerWindow>,
    pub top: Seq<LayerWindow>,
    pub overlay: Seq<LayerWindow>,
}

impl LayersView {
    /// The windows of one layer.
    pub open spec fn layer(self, layer: Layer) -> Seq<LayerWindow> {
        match layer {
            Layer::Background => self.background,
            Layer::Bottom => self.bottom,
            Layer::Top => self.top,
            Layer::Overlay => self.overlay,
        }
    }

    /// All windows, lowest first.
    pub open spec fn all(self) -> Seq<LayerWindow> {
        self.background + self.bottom + self.top + self.overlay
    }

    /// The layers with one more window on top of `layer`.
    pub open spec fn add(self, layer: Layer, window: LayerWindow) -> LayersView {
        match layer {
            Layer::Background => LayersView { background: self.background.push(window), ..self },
            Layer::Bottom => LayersView { bottom: self.bottom.push(window), ..self },
            Layer::Top => LayersView { top: self.top.push(window), ..self },
            Layer::Overlay => LayersView { overlay: self.overlay.push(window), ..self },
        }
    }

    /// The topmost window above the tiled windows that `point` lies on.
    pub open spec fn foreground_window_at(self, point: Point) -> Option<LayerWindow> {
        match topmost_at(self.overlay, point) {
            Some(window) => Some(window),
            None => topmost_at(self.top, point),
        }
    }

    /// The topmost window below the tiled windows that `point` lies on.
    pub open spec fn background_window_at(self, point: Point) -> Option<LayerWindow> {
        match topmost_at(self.bottom, point) {
            Some(window) => Some(window),
            None => topmost_at(self.background, point),
        }
    }

    /// The layers once a transaction is over.
    pub open spec fn apply_transaction(self) -> LayersView {
        LayersView {
            focus: self.focus,
            background: pruned(self.background),
            bottom: pruned(self.bottom),
            top: pruned(self.top),
            overlay: pruned(self.overlay),
        }
    }

    /// The layers after `change` happened to the windows that show the
    /// surface `id`.
    pub open spec fn change(self, id: WindowId, change: WindowChange) -> LayersView {
        LayersView {
            focus: self.focus,
            background: changed(self.background, id, change),
            bottom: changed(self.bottom, id, change),
            top: changed(self.top, id, change),
            overlay: changed(self.overlay, id, change),
        }
    }

    /// Whether any window shows the surface `id`.
    pub open spec fn shows(self, id: WindowId) -> bool {
        any_shows(self.background, id) || any_shows(self.bottom, id) || any_shows(self.top, id)
            || any_shows(self.overlay, id)
    }

    /// The layers after the surface `id` was destroyed.
    pub open spec fn reap(self, id: WindowId) -> LayersView {
        self.change(id, WindowChange::Destroyed)
    }

    /// The topmost window that shows the surface `id`.
    pub open spec fn find(self, id: WindowId) -> Option<LayerWindow> {
        match topmost_of(self.overlay, id) {
            Some(window) => Some(window),
            None => match topmost_of(self.top, id) {
                Some(window) => Some(window),
                None => match topmost_of(self.bottom, id) {
                    Some(window) => Some(window),
                    None => topmost_of(self.background, id),
                },
            },
        }
    }

    /// Whether a request to place the windows concerns any window: dead
    /// windows are not placed, and while a window is fullscreen only
    /// overlay windows are.
    pub open spec fn placeable(self, fullscreen_active: bool) -> bool {
        if fullscreen_active {
            any_alive(self.overlay)
        } else {
            any_alive(self.background) || any_alive(self.bottom) || any_alive(self.top)
                || any_alive(self.overlay)
        }
    }

    /// Whether a window that is alive shows the surface `id`.
    pub open spec fn alive_shows(self, id: WindowId) -> bool {
        any_alive_shows(self.background, id) || any_alive_shows(self.bottom, id)
            || any_alive_shows(self.top, id) || any_alive_shows(self.overlay, id)
    }

    /// The layers after their windows were placed on the output, lowest
    /// first, and the output with the zones that they claimed; while a
    /// window is fullscreen only overlay windows are placed.
    pub open spec fn update_dimensions(self, output: Output, fullscreen_active: bool) -> (
        LayersView,
        Output,
    ) {
        if fullscreen_active {
            let (overlay, claimed) = placed_all(self.overlay, output, true);
            (LayersView { overlay, ..self }, claimed)
        } else {
            let (background, first) = placed_all(self.background, output, false);
            let (bottom, second) = placed_all(self.bottom, first, false);
            let (top, third) = placed_all(self.top, second, false);
            let (overlay, claimed) = placed_all(self.overlay, third, false);
            (LayersView { focus: self.focus, background, bottom, top, overlay }, claimed)
        }
    }

    /// The layers after the surface `id` committed a buffer of `size`, and
    /// the output with the zones that its windows claimed: the windows that
    /// show the surface count as changed and as having acknowledged that
    /// size, and are placed on the output anew. Only an overlay window is
    /// placed as beside a fullscreen window.
    pub open spec fn surface_commit(
        self,
        id: WindowId,
        size: Size,
        output: Output,
        fullscreen_active: bool,
    ) -> (LayersView, Output) {
        let committed = self.change(id, WindowChange::Commit(size));
        let (background, first) = placed_surface(committed.background, output, false, id);
        let (bottom, second) = placed_surface(committed.bottom, first, false, id);
        let (top, third) = placed_surface(committed.top, second, false, id);
        let (overlay, claimed) = placed_surface(committed.overlay, third, fullscreen_active, id);
        (LayersView { focus: self.focus, background, bottom, top, overlay }, claimed)
    }

    /// Whether every window has caught up with the geometry requested of
    /// it.
    pub open spec fn transaction_done(self) -> bool {
        all_done(self.background) && all_done(self.bottom) && all_done(self.top) && all_done(
            self.overlay,
        )
    }

    /// Whether any window changed since it was last drawn.
    pub open spec fn dirty(self) -> bool {
        any_dirty(self.background) || any_dirty(self.bottom) || any_dirty(self.top) || any_dirty(
            self.overlay,
        )
    }
}

/// Layer shell windows.
#[derive(Debug)]
pub struct Layers {
    focus: Option<WindowId>,
    background: Vec<LayerWindow>,
    bottom: Vec<LayerWindow>,
    top: Vec<LayerWindow>,
    overlay: Vec<LayerWindow>,
}

impl View for Layers {
    type V = LayersView;

    closed spec fn view(&self) -> LayersView {
        LayersView {
            focus: self.focus,
            background: self.background@,
            bottom: self.bottom@,
            top: self.top@,
            overlay: self.overlay@,
        }
    }
}

/// Apply transactions to all windows and remove dead ones; tells whether
/// any was removed.
fn apply_window_transactions(windows: &mut Vec<LayerWindow>) -> (removed: bool)
    ensures
        final(windows)@ == pruned(old(windows)@),
        final(windows)@.len() <= old(windows)@.len(),
        removed == (final(windows)@.len() != old(windows)@.len()),
{
    let count: usize = windows.len();
    let mut kept: Vec<LayerWindow> = Vec::new();
    let mut i: usize = 0;
    while i < count
        invariant
            i <= count,
            count == windows@.len(),
            windows@ == old(windows)@,
            kept@ == pruned(windows@.take(i as int)),
            kept@.len() <= i,
        decreases count - i,
    {
        let mut layer = windows[i];
        proof {
            assert(windows@.take(i + 1).drop_last() =~= windows@.take(i as int));
            assert(windows@.take(i + 1).last() == windows@[i as int]);
        }
        if layer.window.alive() {
            layer.window.apply_transaction();
            kept.push(layer);
        }
        i += 1;
    }
    assert(windows@.take(count as int) =~= windows@);
    let removed = kept.len() != count;
    *windows = kept;
    removed
}

/// Finds the topmost window that `point` lies on.
fn window_at(windows: &Vec<LayerWindow>, point: Point) -> (window: Option<LayerWindow>)
    ensures
        window == topmost_at(windows@, point),
{
    let mut i: usize = windows.len();
    assert(windows@.take(i as int) =~= windows@);
    while i > 0
        invariant
            i <= windows@.len(),
            topmost_at(windows@, point) == topmost_at(windows@.take(i as int), point),
        decreases i,
    {
        proof {
            assert(windows@.take(i as int).drop_last() =~= windows@.take(i - 1));
            assert(windows@.take(i as int).last() == windows@[i - 1]);
        }
        i -= 1;
        if windows[i].window.contains(point) {
            return Some(windows[i]);
        }
    }
    assert(windows@.take(0) =~= Seq::<LayerWindow>::empty());
    None
}

/// Adds the elements that draw `windows` to `elements`.
fn draw_windows(windows: &Vec<LayerWindow>, elements: &mut Vec<Element>)
    ensures
        final(elements)@ == old(elements)@ + elements_of(windows@),
{
    let mut i: usize = 0;
    assert(elements@ =~= old(elements)@ + elements_of(windows@.take(0)));
    while i < windows.len()
        invariant
            i <= windows@.len(),
            elements@ == old(elements)@ + elements_of(windows@.take(i as int)),
        decreases windows@.len() - i,
    {
        let ghost before = elements@;
        elements.push(Element::plain(windows[i].window));
        assert(elements@ =~= old(elements)@ + elements_of(windows@.take(i + 1)));
        i += 1;
    }
    assert(windows@.take(i as int) =~= windows@);
}

/// Adds `windows` to `all`.
fn collect_windows(windows: &Vec<LayerWindow>, all: &mut Vec<LayerWindow>)
    ensures
        final(all)@ == old(all)@ + windows@,
{
    let mut i: usize = 0;
    assert(all@ =~= old(all)@ + windows@.take(0));
    while i < windows.len()
        invariant
            i <= windows@.len(),
            all@ == old(all)@ + windows@.take(i as int),
        decreases windows@.len() - i,
    {
        all.push(windows[i]);
        assert(all@ =~= old(all)@ + windows@.take(i + 1));
        i += 1;
    }
    assert(windows@.take(i as int) =~= windows@);
}

/// Finds the topmost window that shows the surface `id`.
fn find_window(windows: &Vec<LayerWindow>, id: WindowId) -> (window: Option<LayerWindow>)
    ensures
        window == topmost_of(windows@, id),
{
    let mut i: usize = windows.len();
    assert(windows@.take(i as int) =~= windows@);
    while i > 0
        invariant
            i <= windows@.len(),
            topmost_of(windows@, id) == topmost_of(windows@.take(i as int), id),
        decreases i,
    {
        proof {
            assert(windows@.take(i as int).drop_last() =~= windows@.take(i - 1));
            assert(windows@.take(i as int).last() == windows@[i - 1]);
        }
        i -= 1;
        if windows[i].window.id == id {
            return Some(windows[i]);
        }
    }
    assert(windows@.take(0) =~= Seq::<LayerWindow>::empty());
    None
}

/// Places those of `windows` that show the surface `id` on the output in
/// turn.
fn place_surface(
    windows: &mut Vec<LayerWindow>,
    clock: &mut TransactionClock,
    now: u64,
    output: &mut Output,
    fullscreen_active: bool,
    id: WindowId,
)
    ensures
        (final(windows)@, *final(output)) == placed_surface(
            old(windows)@,
            *old(output),
            fullscreen_active,
            id,
        ),
        *final(output) == (Output { exclusive: final(output).exclusive, ..*old(output) }),
        final(clock)@ == if any_alive_shows(old(windows)@, id) {
            armed(old(clock)@, now)
        } else {
            old(clock)@
        },
{
    let count: usize = windows.len();
    let mut i: usize = 0;
    assert(windows@.take(0) =~= Seq::<LayerWindow>::empty());
    while i < count
        invariant
            i <= count,
            count == windows@.len(),
            count == old(windows)@.len(),
            (windows@.take(i as int), *output) == placed_surface(
                old(windows)@.take(i as int),
                *old(output),
                fullscreen_active,
                id,
            ),
            forall|j: int| i <= j < count ==> windows@[j] == old(windows)@[j],
            *output == (Output { exclusive: output.exclusive, ..*old(output) }),
            clock@ == if any_alive_shows(old(windows)@.take(i as int), id) {
                armed(old(clock)@, now)
            } else {
                old(clock)@
            },
        decreases count - i,
    {
        let ghost before = windows@;
        let ghost source = old(windows)@;
        let mut layer = windows[i];
        if layer.window.id == id {
            layer.update_dimensions(clock, now, output, fullscreen_active);
            windows[i] = layer;
        }
        proof {
            let hit = source[i as int].window.alive && source[i as int].window.id == id;
            if hit {
                assert(source.take(i + 1)[i as int].window.alive);
            } else if any_alive_shows(source.take(i + 1), id) {
                let j = choose|j: int|
                    0 <= j < source.take(i + 1).len() && (#[trigger] source.take(i + 1)[j]).window.alive
                        && source.take(i + 1)[j].window.id == id;
                assert(source.take(i as int)[j].window.alive);
            }
            if any_alive_shows(source.take(i as int), id) {
                let j = choose|j: int|
                    0 <= j < source.take(i as int).len() && (#[trigger] source.take(
                        i as int,
                    )[j]).window.alive && source.take(i as int)[j].window.id == id;
                assert(source.take(i + 1)[j].window.alive);
            }
        }
        proof {
            assert(source.take(i + 1).drop_last() =~= source.take(i as int));
            assert(source.take(i + 1).last() == source[i as int]);
            assert(windows@.take(i + 1) =~= before.take(i as int).push(layer));
        }
        i += 1;
    }
    assert(windows@.take(count as int) =~= windows@);
    assert(old(windows)@.take(count as int) =~= old(windows)@);
}

/// Lets `change` happen to the windows that show the surface `id`.
fn change_windows(
    windows: &mut Vec<LayerWindow>,
    clock: &mut TransactionClock,
    now: u64,
    id: WindowId,
    change: WindowChange,
)
    ensures
        final(windows)@ == changed(old(windows)@, id, change),
        final(clock)@ == if change.spec_transactional() && any_shows(old(windows)@, id) {
            armed(old(clock)@, now)
        } else {
            old(clock)@
        },
{
    let count: usize = windows.len();
    let mut i: usize = 0;
    while i < count
        invariant
            i <= count,
            count == windows@.len(),
            count == old(windows)@.len(),
            forall|j: int| 0 <= j < i ==> windows@[j] == changed(old(windows)@, id, change)[j],
            forall|j: int| i <= j < count ==> windows@[j] == old(windows)@[j],
            clock@ == if change.spec_transactional() && any_shows(old(windows)@.take(i as int), id) {
                armed(old(clock)@, now)
            } else {
                old(clock)@
            },
        decreases count - i,
    {
        let ghost source = old(windows)@;
        if windows[i].window.id == id {
            let mut layer = windows[i];
            layer.window.change(clock, now, change);
            windows[i] = layer;
            assert(source.take(i + 1)[i as int].window.id == id);
        } else {
            proof {
                if any_shows(source.take(i + 1), id) {
                    let j = choose|j: int|
                        0 <= j < source.take(i + 1).len() && (#[trigger] source.take(i + 1)[j]).window.id
                            == id;
                    assert(source.take(i as int)[j].window.id == id);
                }
                if any_shows(source.take(i as int), id) {
                    let j = choose|j: int|
                        0 <= j < source.take(i as int).len() && (#[trigger] source.take(
                            i as int,
                        )[j]).window.id == id;
                    assert(source.take(i + 1)[j].window.id == id);
                }
            }
        }
        i += 1;
    }
    assert(old(windows)@.take(count as int) =~= old(windows)@);
    assert(windows@ =~= changed(old(windows)@, id, change));
}

/// A commit leaves windows alive or dead as they are, with the surfaces
/// that they show.
proof fn same_surfaces(windows: Seq<LayerWindow>, id: WindowId, size: Size)
    ensures
        any_alive_shows(changed(windows, id, WindowChange::Commit(size)), id) == any_alive_shows(
            windows,
            id,
        ),
{
    let after = changed(windows, id, WindowChange::Commit(size));
    if any_alive_shows(windows, id) {
        let i = choose|i: int|
            0 <= i < windows.len() && (#[trigger] windows[i]).window.alive && windows[i].window.id
                == id;
        assert(after[i].window.alive);
    }
    if any_alive_shows(after, id) {
        let i = choose|i: int|
            0 <= i < after.len() && (#[trigger] after[i]).window.alive && after[i].window.id == id;
        assert(windows[i].window.alive);
    }
}

/// Whether all of `windows` have caught up with the geometry requested of
/// them.
pub open spec fn all_done(windows: Seq<LayerWindow>) -> bool {
    forall|i: int| 0 <= i < windows.len() ==> (#[trigger] windows[i]).window.spec_transaction_done()
}

/// Whether any of `windows` changed since it was last drawn.
pub open spec fn any_dirty(windows: Seq<LayerWindow>) -> bool {
    exists|i: int| 0 <= i < windows.len() && (#[trigger] windows[i]).window.dirty
}

/// Whether all of `windows` have caught up with the geometry requested of
/// them.
fn windows_done(windows: &Vec<LayerWindow>) -> (done: bool)
    ensures
        done == all_done(windows@),
{
    let mut i: usize = 0;
    while i < windows.len()
        invariant
            i <= windows@.len(),
            forall|j: int| 0 <= j < i ==> (#[trigger] windows@[j]).window.spec_transaction_done(),
        decreases windows@.len() - i,
    {
        if !windows[i].window.transaction_done() {
            assert(!windows@[i as int].window.spec_transaction_done());
            return false;
        }
        i += 1;
    }
    true
}

/// Whether any of `windows` changed since it was last drawn.
fn windows_dirty(windows: &Vec<LayerWindow>) -> (dirty: bool)
    ensures
        dirty == any_dirty(windows@),
{
    let mut i: usize = 0;
    while i < windows.len()
        invariant
            i <= windows@.len(),
            forall|j: int| 0 <= j < i ==> !(#[trigger] windows@[j]).window.dirty,
        decreases windows@.len() - i,
    {
        if windows[i].window.dirty() {
            assert(windows@[i as int].window.dirty);
            return true;
        }
        i += 1;
    }
    false
}

/// Places each of `windows` on the output in turn.
fn place_windows(
    windows: &mut Vec<LayerWindow>,
    clock: &mut TransactionClock,
    now: u64,
    output: &mut Output,
    fullscreen_active: bool,
)
    ensures
        (final(windows)@, *final(output)) == placed_all(old(windows)@, *old(output), fullscreen_active),
        final(windows)@.len() == old(windows)@.len(),
        *final(output) == (Output { exclusive: final(output).exclusive, ..*old(output) }),
        final(clock)@ == if any_alive(old(windows)@) {
            armed(old(clock)@, now)
        } else {
            old(clock)@
        },
{
    let count: usize = windows.len();
    let mut i: usize = 0;
    assert(windows@.take(0) =~= Seq::<LayerWindow>::empty());
    while i < count
        invariant
            i <= count,
            count == windows@.len(),
            count == old(windows)@.len(),
            (windows@.take(i as int), *output) == placed_all(
                old(windows)@.take(i as int),
                *old(output),
                fullscreen_active,
            ),
            forall|j: int| i <= j < count ==> windows@[j] == old(windows)@[j],
            *output == (Output { exclusive: output.exclusive, ..*old(output) }),
            clock@ == if any_alive(old(windows)@.take(i as int)) {
                armed(old(clock)@, now)
            } else {
                old(clock)@
            },
        decreases count - i,
    {
        let ghost before = windows@;
        let mut layer = windows[i];
        layer.update_dimensions(clock, now, output, fullscreen_active);
        windows[i] = layer;
        proof {
            let source = old(windows)@;
            if source[i as int].window.alive {
                assert(source.take(i + 1)[i as int].window.alive);
            } else if any_alive(source.take(i + 1)) {
                let j = choose|j: int|
                    0 <= j < source.take(i + 1).len() && (#[trigger] source.take(i + 1)[j]).window.alive;
                assert(source.take(i as int)[j].window.alive);
            }
            if any_alive(source.take(i as int)) {
                let j = choose|j: int|
                    0 <= j < source.take(i as int).len() && (#[trigger] source.take(
                        i as int,
                    )[j]).window.alive;
                assert(source.take(i + 1)[j].window.alive);
            }
            assert(source.take(i + 1).drop_last() =~= source.take(i as int));
            assert(source.take(i + 1).last() == source[i as int]);
            assert(windows@.take(i + 1) =~= before.take(i as int).push(layer));
        }
        i += 1;
    }
    assert(windows@.take(count as int) =~= windows@);
    assert(old(windows)@.take(count as int) =~= old(windows)@);
}

impl Layers {
    /// No windows and no focus.
    pub fn new() -> (layers: Self)
        ensures
            layers@ == (LayersView {
                focus: None,
                background: Seq::empty(),
                bottom: Seq::empty(),
                top: Seq::empty(),
                overlay: Seq::empty(),
            }),
    {
        Layers {
            focus: None,
            background: Vec::new(),
            bottom: Vec::new(),
            top: Vec::new(),
            overlay: Vec::new(),
        }
    }

    /// Layer shell window that has the focus.
    pub fn focus(&self) -> (focus: Option<WindowId>)
        ensures
            focus == self@.focus,
    {
        self.focus
    }

    /// Gives the focus to a layer shell window, or to none.
    pub fn set_focus(&mut self, focus: Option<WindowId>)
        ensures
            final(self)@ == (LayersView { focus, ..old(self)@ }),
    {
        self.focus = focus;
    }

    /// Add a new layer shell window.
    pub fn add(&mut self, layer: Layer, window: LayerWindow)
        ensures
            final(self)@ == old(self)@.add(layer, window),
    {
        match layer {
            Layer::Background => self.background.push(window),
            Layer::Bottom => self.bottom.push(window),
            Layer::Top => self.top.push(window),
            Layer::Overlay => self.overlay.push(window),
        }
    }

    /// Number of layer shell windows.
    pub fn len(&self) -> (count: usize)
        requires
            self@.all().len() <= usize::MAX,
        ensures
            count == self@.all().len(),
    {
        self.background.len() + self.bottom.len() + self.top.len() + self.overlay.len()
    }

    /// Foreground window at the specified position.
    pub fn foreground_window_at(&self, position: Point) -> (window: Option<LayerWindow>)
        ensures
            window == self@.foreground_window_at(position),
    {
        match window_at(&self.overlay, position) {
            Some(window) => Some(window),
            None => window_at(&self.top, position),
        }
    }

    /// Background window at the specified position.
    pub fn background_window_at(&self, position: Point) -> (window: Option<LayerWindow>)
        ensures
            window == self@.background_window_at(position),
    {
        match window_at(&self.bottom, position) {
            Some(window) => Some(window),
            None => window_at(&self.background, position),
        }
    }

    /// Overlay window at the specified position.
    pub fn overlay_window_at(&self, position: Point) -> (window: Option<LayerWindow>)
        ensures
            window == topmost_at(self@.overlay, position),
    {
        window_at(&self.overlay, position)
    }

    /// Apply all pending transactional updates; tells whether a dead
    /// window was removed.
    pub fn apply_transaction(&mut self) -> (removed: bool)
        ensures
            final(self)@ == old(self)@.apply_transaction(),
            removed == (final(self)@.all().len() != old(self)@.all().len()),
    {
        let background = apply_window_transactions(&mut self.background);
        let bottom = apply_window_transactions(&mut self.bottom);
        let top = apply_window_transactions(&mut self.top);
        let overlay = apply_window_transactions(&mut self.overlay);
        background || bottom || top || overlay
    }

    /// Lets `change` happen to the windows that show the surface `id`.
    pub fn change(
        &mut self,
        clock: &mut TransactionClock,
        now: u64,
        id: WindowId,
        change: WindowChange,
    )
        ensures
            final(self)@ == old(self)@.change(id, change),
            final(clock)@ == if change.spec_transactional() && old(self)@.shows(id) {
                armed(old(clock)@, now)
            } else {
                old(clock)@
            },
    {
        change_windows(&mut self.background, clock, now, id, change);
        change_windows(&mut self.bottom, clock, now, id, change);
        change_windows(&mut self.top, clock, now, id, change);
        change_windows(&mut self.overlay, clock, now, id, change);
    }

    /// Stage a dead window for reaping.
    ///
    /// A transaction is started so that the window is removed even if
    /// nothing is resized.
    pub fn reap(&mut self, clock: &mut TransactionClock, now: u64, id: WindowId)
        ensures
            final(self)@ == old(self)@.reap(id),
            final(clock)@ == armed(old(clock)@, now),
    {
        clock.start(now);
        self.change(clock, now, id, WindowChange::Destroyed);
    }

    /// The topmost window that shows the surface `id`.
    pub fn find(&self, id: WindowId) -> (window: Option<LayerWindow>)
        ensures
            window == self@.find(id),
    {
        match find_window(&self.overlay, id) {
            Some(window) => Some(window),
            None => match find_window(&self.top, id) {
                Some(window) => Some(window),
                None => match find_window(&self.bottom, id) {
                    Some(window) => Some(window),
                    None => find_window(&self.background, id),
                },
            },
        }
    }

    /// Whether every window has caught up with the geometry requested of
    /// it.
    pub fn transaction_done(&self) -> (done: bool)
        ensures
            done == self@.transaction_done(),
    {
        windows_done(&self.background) && windows_done(&self.bottom) && windows_done(&self.top)
            && windows_done(&self.overlay)
    }

    /// Whether any window changed since it was last drawn.
    pub fn dirty(&self) -> (dirty: bool)
        ensures
            dirty == self@.dirty(),
    {
        windows_dirty(&self.background) || windows_dirty(&self.bottom) || windows_dirty(&self.top)
            || windows_dirty(&self.overlay)
    }

    /// Whether any overlay window changed since it was last drawn.
    pub fn overlay_dirty(&self) -> (dirty: bool)
        ensures
            dirty == any_dirty(self@.overlay),
    {
        windows_dirty(&self.overlay)
    }

    /// Requests their places on the output for the windows, lowest first,
    /// and reserves their exclusive zones there; while a window is
    /// fullscreen only overlay windows are placed.
    pub fn update_dimensions(
        &mut self,
        clock: &mut TransactionClock,
        now: u64,
        output: &mut Output,
        fullscreen_active: bool,
    )
        ensures
            (final(self)@, *final(output)) == old(self)@.update_dimensions(
                *old(output),
                fullscreen_active,
            ),
            *final(output) == (Output { exclusive: final(output).exclusive, ..*old(output) }),
            final(clock)@ == if old(self)@.placeable(fullscreen_active) {
                armed(old(clock)@, now)
            } else {
                old(clock)@
            },
    {
        if !fullscreen_active {
            place_windows(&mut self.background, clock, now, output, false);
            place_windows(&mut self.bottom, clock, now, output, false);
            place_windows(&mut self.top, clock, now, output, false);
        }
        place_windows(&mut self.overlay, clock, now, output, fullscreen_active);
    }

    /// All layer shell windows, lowest first.
    pub fn iter(&self) -> (windows: Vec<LayerWindow>)
        ensures
            windows@ == self@.all(),
    {
        let mut windows: Vec<LayerWindow> = Vec::new();
        collect_windows(&self.background, &mut windows);
        collect_windows(&self.bottom, &mut windows);
        collect_windows(&self.top, &mut windows);
        collect_windows(&self.overlay, &mut windows);
        assert(windows@ =~= self@.all());
        windows
    }

    /// The layer shell windows below the tiled windows, bottom to top.
    pub fn background(&self) -> (windows: Vec<LayerWindow>)
        ensures
            windows@ == self@.background + self@.bottom,
    {
        let mut windows: Vec<LayerWindow> = Vec::new();
        collect_windows(&self.background, &mut windows);
        collect_windows(&self.bottom, &mut windows);
        assert(windows@ =~= self@.background + self@.bottom);
        windows
    }

    /// The layer shell windows above the tiled windows, bottom to top.
    pub fn foreground(&self) -> (windows: Vec<LayerWindow>)
        ensures
            windows@ == self@.top + self@.overlay,
    {
        let mut windows: Vec<LayerWindow> = Vec::new();
        collect_windows(&self.top, &mut windows);
        collect_windows(&self.overlay, &mut windows);
        assert(windows@ =~= self@.top + self@.overlay);
        windows
    }

    /// The overlay windows, bottom to top.
    pub fn overlay(&self) -> (windows: Vec<LayerWindow>)
        ensures
            windows@ == self@.overlay,
    {
        let mut windows: Vec<LayerWindow> = Vec::new();
        collect_windows(&self.overlay, &mut windows);
        assert(windows@ =~= self@.overlay);
        windows
    }

    /// Draw background/bottom layer windows.
    pub fn draw_background(&self, elements: &mut Vec<Element>)
        ensures
            final(elements)@ == old(elements)@ + elements_of(self@.background) + elements_of(
                self@.bottom,
            ),
    {
        draw_windows(&self.background, elements);
        draw_windows(&self.bottom, elements);
    }

    /// Draw top/overlay layer windows.
    pub fn draw_foreground(&self, elements: &mut Vec<Element>)
        ensures
            final(elements)@ == old(elements)@ + elements_of(self@.top) + elements_of(self@.overlay),
    {
        draw_windows(&self.top, elements);
        self.draw_overlay(elements);
    }

    /// Draw overlay layer windows.
    pub fn draw_overlay(&self, elements: &mut Vec<Element>)
        ensures
            final(elements)@ == old(elements)@ + elements_of(self@.overlay),
    {
        draw_windows(&self.overlay, elements);
    }

    /// Handle a surface commit for a layer shell window.
    pub fn surface_commit(
        &mut self,
        clock: &mut TransactionClock,
        now: u64,
        id: WindowId,
        size: Size,
        output: &mut Output,
        fullscreen_active: bool,
    )
        ensures
            (final(self)@, *final(output)) == old(self)@.surface_commit(
                id,
                size,
                *old(output),
                fullscreen_active,
            ),
            *final(output) == (Output { exclusive: final(output).exclusive, ..*old(output) }),
            final(clock)@ == if old(self)@.alive_shows(id) {
                armed(old(clock)@, now)
            } else {
                old(clock)@
            },
    {
        self.change(clock, now, id, WindowChange::Commit(size));
        proof {
            let source = old(self)@;
            same_surfaces(source.background, id, size);
            same_surfaces(source.bottom, id, size);
            same_surfaces(source.top, id, size);
            same_surfaces(source.overlay, id, size);
        }
        place_surface(&mut self.background, clock, now, output, false, id);
        place_surface(&mut self.bottom, clock, now, output, false, id);
        place_surface(&mut self.top, clock, now, output, false, id);
        place_surface(&mut self.overlay, clock, now, output, fullscreen_active, id);
    }
}

} // verus!
