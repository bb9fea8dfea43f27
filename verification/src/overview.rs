//! Application overview.
//!
//! The overview shows the layouts side by side. Its horizontal position is
//! kept in fixed point: [`OFFSET_UNIT`] units are the distance from one
//! layout to the next, offset zero centres the first layout, and offsets
//! fall as the overview moves on to later layouts.

use vstd::prelude::*;
use crate::drawing::Element;
use crate::geometry::{clamp_i32, max, min, saturate, Point, Rectangle, Size};
use crate::layout::{Layout, LayoutPosition, Layouts, LayoutsView};
use crate::output::Output;
use crate::window::WindowId;

verus! {

/// Offset units between one layout and the next.
pub const OFFSET_UNIT: i64 = 1500;

/// Touch distance in pixels that moves the overview by one layout.
pub const OVERVIEW_HORIZONTAL_SENSITIVITY: i64 = 250;

/// Offset units that one pixel of touch distance moves the overview by.
pub const OFFSET_PER_PIXEL: i64 = 6;

/// Maximum amount of overdrag before inputs are ignored: a quarter of the
/// distance between two layouts.
pub const OVERDRAG_LIMIT: i64 = 375;

/// Part of the available height that a window is moved by before it is
/// closed in the overview: one in this many.
pub const OVERVIEW_CLOSE_DISTANCE: i64 = 4;

/// Offset units per millisecond of the return to the nearest layout.
pub const HORIZONTAL_DRAG_ANIMATION_SPEED: i64 = 20;

/// Pixels per three milliseconds of the return from a close drag.
pub const VERTICAL_DRAG_ANIMATION_SPEED: i64 = 10;

/// Unit of window scales: a scale of this much leaves a size unchanged.
pub const SCALE_UNIT: i64 = 30000;

/// Scale of the window in the centre of the overview: three quarters.
pub const FG_OVERVIEW_SCALE: i64 = 22500;

/// Scale of the windows beside the centre of the overview: seven tenths.
pub const BG_OVERVIEW_SCALE: i64 = 21000;

/// Percentage of the overview width from one window to the next.
pub const OVERVIEW_SPACING_PERCENTAGE: i64 = 75;

/// Percentage of the screen for the drop highlight areas.
pub const DRAG_AND_DROP_PERCENTAGE: i64 = 30;

/// `value` kept within `low` and `high`.
pub open spec fn clamp(value: int, low: int, high: int) -> int {
    if value < low {
        low
    } else if value > high {
        high
    } else {
        value
    }
}

/// The nearest `i64` to `value`.
pub open spec fn clamp_i64(value: int) -> i64 {
    clamp(value, i64::MIN as int, i64::MAX as int) as i64
}

/// Distance of `value` from zero.
pub open spec fn magnitude(value: int) -> int {
    if value >= 0 {
        value
    } else {
        -value
    }
}

/// `value * numerator / denominator` rounded to the nearest integer, ties
/// away from zero.
pub open spec fn scaled(value: int, numerator: int, denominator: int) -> int {
    let product = value * numerator;
    if product >= 0 {
        (2 * product + denominator) / (2 * denominator)
    } else {
        -((2 * -product + denominator) / (2 * denominator))
    }
}

/// `value * numerator / denominator` with the fraction cut off.
pub open spec fn truncated(value: int, numerator: int, denominator: int) -> int {
    let product = value * numerator;
    if product >= 0 {
        product / denominator
    } else {
        -(-product / denominator)
    }
}

/// The offset of the layout nearest to `offset`; half way between two
/// layouts the one further from the first is taken.
pub open spec fn nearest_layout(offset: int) -> int {
    scaled(offset, 1, OFFSET_UNIT as int) * OFFSET_UNIT
}

/// What `offset` has beyond the last layout that it passed on its way from
/// zero; it has the sign of the offset.
pub open spec fn fraction(offset: int) -> int {
    offset - truncated(offset, 1, OFFSET_UNIT as int) * OFFSET_UNIT
}

/// The lowest offset that centres a layout: that of the last of `count`
/// layouts.
pub open spec fn min_offset(count: int) -> int {
    -(max(count, 1) - 1) * OFFSET_UNIT
}

/// Narrows a wide integer to `i64`, stopping at the bounds of the type.
fn saturate_i64(value: i128) -> (narrow: i64)
    ensures
        narrow == clamp_i64(value as int),
{
    if value < i64::MIN as i128 {
        i64::MIN
    } else if value > i64::MAX as i128 {
        i64::MAX
    } else {
        value as i64
    }
}

/// A product is no further from zero than the product of the bounds of
/// its factors.
proof fn product_bound(a: int, b: int, bound_a: int, bound_b: int)
    requires
        -bound_a <= a <= bound_a,
        -bound_b <= b <= bound_b,
    ensures
        -(bound_a * bound_b) <= a * b <= bound_a * bound_b,
{
    assert(-(bound_a * bound_b) <= a * b <= bound_a * bound_b) by (nonlinear_arith)
        requires
            -bound_a <= a <= bound_a,
            -bound_b <= b <= bound_b,
    ;
}

/// Scales `value` and rounds to the nearest integer.
pub fn scale(value: i32, numerator: i64, denominator: i64) -> (result: i32)
    requires
        denominator > 0,
    ensures
        result == clamp_i32(scaled(value as int, numerator as int, denominator as int)),
{
    proof {
        product_bound(value as int, numerator as int, 0x8000_0000, 0x8000_0000_0000_0000);
        assert(0x8000_0000int * 0x8000_0000_0000_0000int == 0x4000_0000_0000_0000_0000_0000int);
    }
    let product: i128 = value as i128 * numerator as i128;
    let twice: i128 = 2 * denominator as i128;
    if product >= 0 {
        let quotient: i128 = (2 * product + denominator as i128) / twice;
        saturate_wide(quotient)
    } else {
        let quotient: i128 = (2 * -product + denominator as i128) / twice;
        saturate_wide(-quotient)
    }
}

/// Halves `value` and rounds to the nearest integer.
fn half(value: i64) -> (result: i64)
    ensures
        result == scaled(value as int, 1, 2),
        magnitude(result as int) <= magnitude(value as int),
{
    if value >= 0 {
        ((2 * value as i128 + 2) / 4) as i64
    } else {
        (-((2 * -(value as i128) + 2) / 4)) as i64
    }
}

/// Number of layouts between `offset` and zero, rounded to the nearest
/// integer; it has the sign of the offset.
fn nearest_slot(offset: i64) -> (slot: i64)
    ensures
        slot == scaled(offset as int, 1, OFFSET_UNIT as int),
        slot * OFFSET_UNIT == nearest_layout(offset as int),
        magnitude(slot as int) <= magnitude(offset as int),
        magnitude(offset - slot * OFFSET_UNIT) <= OFFSET_UNIT / 2,
{
    if offset >= 0 {
        ((2 * offset as i128 + 1500) / 3000) as i64
    } else {
        (-((2 * -(offset as i128) + 1500) / 3000)) as i64
    }
}

/// What `offset` has beyond the last layout that it passed.
fn fract(offset: i64) -> (part: i64)
    ensures
        part == fraction(offset as int),
        -OFFSET_UNIT < part < OFFSET_UNIT,
{
    if offset >= 0 {
        offset % 1500
    } else {
        (-((-(offset as i128)) % 1500)) as i64
    }
}

/// Narrows a wide integer to `i32`, stopping at the bounds of the type.
fn saturate_wide(value: i128) -> (narrow: i32)
    ensures
        narrow == clamp_i32(value as int),
{
    if value < i32::MIN as i128 {
        i32::MIN
    } else if value > i32::MAX as i128 {
        i32::MAX
    } else {
        value as i32
    }
}

/// The lowest offset that centres one of `window_count` layouts.
fn lowest_offset(window_count: usize) -> (lowest: i128)
    ensures
        lowest == min_offset(window_count as int),
        -0x1_0000_0000_0000_0000_0000 <= lowest <= 0,
{
    let count: i128 = if window_count > 1 { window_count as i128 } else { 1 };
    -(count - 1) * 1500
}

/// How far a layout is moved sideways for a distance from the centre of
/// `distance` offset units times the width of the overview.
fn spacing(distance: i64) -> (shift: i64)
    requires
        -0x1_0000_0000_0000 <= distance <= 0x1_0000_0000_0000,
    ensures
        shift == truncated(distance as int, OVERVIEW_SPACING_PERCENTAGE as int, 100 * OFFSET_UNIT),
        magnitude(shift as int) <= magnitude(distance as int),
{
    if distance >= 0 {
        distance * 75 / 150000
    } else {
        -(-distance * 75 / 150000)
    }
}

/// Purpose of an overview touch drag action.
#[derive(Clone, Copy, Debug, PartialEq, Eq, Structural)]
pub enum DragAction {
    /// Close a window in the overview.
    Close(WindowId),
    /// Cycle through overview windows.
    Cycle,
    /// No action active.
    Idle,
}

impl Default for DragAction {
    fn default() -> (action: Self)
        ensures
            action == DragAction::Idle,
    {
        DragAction::Idle
    }
}

impl DragAction {
    /// Window in the process of being closed.
    pub fn closing_window(&self) -> (window: Option<WindowId>)
        ensures
            window == match *self {
                DragAction::Close(id) => Some(id),
                _ => None,
            },
    {
        match self {
            DragAction::Close(window) => Some(*window),
            _ => None,
        }
    }
}

/// Window placed in the application overview.
#[derive(Clone, Copy, Debug, PartialEq, Eq, Structural)]
pub struct OverviewPosition {
    /// Where the layout is shown.
    pub bounds: Rectangle,
    /// Scale of the layout's windows, in parts of [`SCALE_UNIT`].
    pub scale: i64,
}

impl OverviewPosition {
    /// The place of a layout in the overview.
    ///
    /// The layout is the one nearest to `window_offset`. Its scale falls
    /// with its distance from the centre of the overview at
    /// `center_offset_x`: from the foreground scale in the centre to the
    /// background scale one layout away, and on at the same rate down to
    /// nothing. It is centred in `available_rect` and moved sideways by its
    /// distance from the centre in layouts, times the spacing.
    pub open spec fn spec_new(
        available_rect: Rectangle,
        center_offset_x: i64,
        window_offset: i64,
    ) -> OverviewPosition {
        let delta = clamp(
            center_offset_x - nearest_layout(window_offset as int),
            -(FG_OVERVIEW_SCALE as int),
            FG_OVERVIEW_SCALE as int,
        );
        let scale = FG_OVERVIEW_SCALE - magnitude(delta);
        let width = clamp_i32(scaled(available_rect.size.w as int, scale, SCALE_UNIT as int));
        let height = clamp_i32(scaled(available_rect.size.h as int, scale, SCALE_UNIT as int));
        let shift = truncated(
            delta * available_rect.size.w,
            OVERVIEW_SPACING_PERCENTAGE as int,
            100 * OFFSET_UNIT,
        );
        OverviewPosition {
            bounds: Rectangle {
                loc: Point {
                    x: clamp_i32(
                        available_rect.loc.x + scaled(available_rect.size.w - width, 1, 2) + shift,
                    ),
                    y: clamp_i32(available_rect.loc.y + scaled(available_rect.size.h - height, 1, 2)),
                },
                size: Size { w: width, h: height },
            },
            scale: scale as i64,
        }
    }

    /// Calculate the rectangle for a window in the application overview.
    #[verifier::when_used_as_spec(spec_new)]
    pub fn new(available_rect: Rectangle, center_offset_x: i64, window_offset: i64) -> (position:
        Self)
        ensures
            position == OverviewPosition::spec_new(available_rect, center_offset_x, window_offset),
            0 <= position.scale <= FG_OVERVIEW_SCALE,
    {
        // Calculate window's distance from the center of the overview.
        let slot: i64 = nearest_slot(window_offset);
        let distance: i128 = center_offset_x as i128 - slot as i128 * 1500;
        let furthest: i64 = FG_OVERVIEW_SCALE;
        let delta: i64 = if distance < -(furthest as i128) {
            -furthest
        } else if distance > furthest as i128 {
            furthest
        } else {
            distance as i64
        };

        // Calculate the window's scale.
        let scale: i64 = furthest - if delta >= 0 { delta } else { -delta };

        // Calculate the window's size and position.
        let width: i32 = self::scale(available_rect.size.w, scale, SCALE_UNIT);
        let height: i32 = self::scale(available_rect.size.h, scale, SCALE_UNIT);
        let half_width: i64 = half(available_rect.size.w as i64 - width as i64);
        let half_height: i64 = half(available_rect.size.h as i64 - height as i64);
        proof {
            product_bound(delta as int, available_rect.size.w as int, 22500, 0x8000_0000);
        }
        let shift: i64 = spacing(delta * available_rect.size.w as i64);
        OverviewPosition {
            bounds: Rectangle {
                loc: Point {
                    x: saturate(available_rect.loc.x as i64 + half_width + shift),
                    y: saturate(available_rect.loc.y as i64 + half_height),
                },
                size: Size { w: width, h: height },
            },
            scale,
        }
    }

    /// Where the secondary window of the layout is shown: the part of the
    /// bounds that the primary of two windows leaves, along the axis that
    /// the output is split on.
    pub open spec fn spec_secondary_bounds(&self, output: &Output) -> Rectangle {
        let primary = output.spec_primary_rectangle(true).size;
        if output.spec_splits_vertically() {
            let taken = clamp_i32(scaled(primary.h as int, self.scale as int, SCALE_UNIT as int));
            Rectangle {
                loc: Point { x: self.bounds.loc.x, y: clamp_i32(self.bounds.loc.y + taken) },
                size: Size { w: self.bounds.size.w, h: clamp_i32(self.bounds.size.h - taken) },
            }
        } else {
            let taken = clamp_i32(scaled(primary.w as int, self.scale as int, SCALE_UNIT as int));
            Rectangle {
                loc: Point { x: clamp_i32(self.bounds.loc.x + taken), y: self.bounds.loc.y },
                size: Size { w: clamp_i32(self.bounds.size.w - taken), h: self.bounds.size.h },
            }
        }
    }

    /// Secondary window bounds for this layout's position.
    #[verifier::when_used_as_spec(spec_secondary_bounds)]
    pub fn secondary_bounds(&self, output: &Output) -> (bounds: Rectangle)
        ensures
            bounds == self.spec_secondary_bounds(output),
    {
        let primary = output.primary_rectangle(true).size;
        let available = output.available();
        if available.size.h > available.size.w {
            let taken: i32 = scale(primary.h, self.scale, SCALE_UNIT);
            Rectangle {
                loc: Point {
                    x: self.bounds.loc.x,
                    y: saturate(self.bounds.loc.y as i64 + taken as i64),
                },
                size: Size {
                    w: self.bounds.size.w,
                    h: saturate(self.bounds.size.h as i64 - taken as i64),
                },
            }
        } else {
            let taken: i32 = scale(primary.w, self.scale, SCALE_UNIT);
            Rectangle {
                loc: Point {
                    x: saturate(self.bounds.loc.x as i64 + taken as i64),
                    y: self.bounds.loc.y,
                },
                size: Size {
                    w: saturate(self.bounds.size.w as i64 - taken as i64),
                    h: self.bounds.size.h,
                },
            }
        }
    }
}

/// Overview view state.
#[derive(Clone, Copy, Debug, PartialEq, Eq, Structural)]
pub struct Overview {
    /// Position that a touch is held on; a hold that lasts picks the window
    /// there up.
    pub hold_timer: Option<LayoutPosition>,
    /// Where the touch was when it last moved.
    pub last_drag_point: Point,
    /// Time in milliseconds of the last step back to rest; unset while a
    /// touch drags the overview.
    pub last_animation_step: Option<u64>,
    /// What the drag in progress does.
    pub drag_action: DragAction,
    /// Horizontal position in offset units.
    pub x_offset: i64,
    /// Distance in pixels that the window being closed was moved by.
    pub y_offset: i64,
}

impl Overview {
    /// The overview at rest at `active_offset`.
    pub open spec fn spec_new(active_offset: i64) -> Overview {
        Overview {
            hold_timer: None,
            last_drag_point: Point { x: 0, y: 0 },
            last_animation_step: None,
            drag_action: DragAction::Idle,
            x_offset: active_offset,
            y_offset: 0,
        }
    }

    #[verifier::when_used_as_spec(spec_new)]
    pub fn new(active_offset: i64) -> (overview: Self)
        ensures
            overview == Overview::spec_new(active_offset),
    {
        Overview {
            hold_timer: None,
            last_drag_point: Point { x: 0, y: 0 },
            last_animation_step: None,
            drag_action: DragAction::Idle,
            x_offset: active_offset,
            y_offset: 0,
        }
    }

    /// Start timer for D&D touch hold.
    pub fn start_hold(&mut self, layout_position: LayoutPosition)
        ensures
            *final(self) == (Overview { hold_timer: Some(layout_position), ..*old(self) }),
    {
        self.hold_timer = Some(layout_position);
    }

    /// Cancel the D&D touch hold timer.
    pub fn cancel_hold(&mut self)
        ensures
            *final(self) == (Overview { hold_timer: None, ..*old(self) }),
    {
        self.hold_timer = None;
    }

    /// What a touch at `point` means for the layout that is shown nearest
    /// to `offset`.
    ///
    /// Outside of the layout's bounds the touch does not concern it. Inside
    /// it ends the search: at a window of the layout, the secondary first,
    /// or at nothing if the layout does not exist. Only a layout without a
    /// window under the touch lets the search go on.
    pub open spec fn slot_at(
        &self,
        output: &Output,
        layouts: LayoutsView,
        point: Point,
        offset: i64,
    ) -> Option<Option<LayoutPosition>> {
        let position = OverviewPosition::spec_new(output.spec_available_overview(), self.x_offset, offset);
        let index = -scaled(offset as int, 1, OFFSET_UNIT as int);
        if !position.bounds.spec_contains(point) {
            None
        } else if index < 0 || index >= layouts.layouts.len() {
            Some(None)
        } else if layouts.layouts[index].secondary.is_some() && position.spec_secondary_bounds(
            output,
        ).spec_contains(point) {
            Some(Some(LayoutPosition { index: index as usize, secondary: true }))
        } else if layouts.layouts[index].primary.is_some() {
            Some(Some(LayoutPosition { index: index as usize, secondary: false }))
        } else {
            None
        }
    }

    /// The window position that is shown at `point`: the layout before the
    /// centre is asked first, then the one in the centre, then the one
    /// after it.
    pub open spec fn spec_layout_position(
        &self,
        output: &Output,
        layouts: LayoutsView,
        point: Point,
    ) -> Option<LayoutPosition> {
        match self.slot_at(output, layouts, point, clamp_i64(self.x_offset - OFFSET_UNIT)) {
            Some(found) => found,
            None => match self.slot_at(output, layouts, point, self.x_offset) {
                Some(found) => found,
                None => match self.slot_at(
                    output,
                    layouts,
                    point,
                    clamp_i64(self.x_offset + OFFSET_UNIT),
                ) {
                    Some(found) => found,
                    None => None,
                },
            },
        }
    }

    /// Asks one layout about a touch.
    fn layout_position_at(
        &self,
        output: &Output,
        layouts: &Layouts,
        point: Point,
        offset: i64,
    ) -> (found: Option<Option<LayoutPosition>>)
        ensures
            found == self.slot_at(output, layouts@, point, offset),
    {
        let position = OverviewPosition::new(output.available_overview(), self.x_offset, offset);
        if !position.bounds.contains(point) {
            return None;
        }
        let slot: i64 = nearest_slot(offset);
        if slot > 0 {
            return Some(None);
        }
        let wide: i128 = -(slot as i128);
        if wide >= layouts.len() as i128 {
            return Some(None);
        }
        let layout_index: usize = wide as usize;
        let layout = match layouts.get(layout_index) {
            Some(layout) => layout,
            None => {
                return Some(None);
            },
        };
        // Check if click was within secondary window.
        if layout.secondary.is_some() && position.secondary_bounds(output).contains(point) {
            return Some(Some(LayoutPosition::new(layout_index, true)));
        }
        // Check if click was within primary window.
        if layout.primary.is_some() {
            return Some(Some(LayoutPosition::new(layout_index, false)));
        }
        None
    }

    /// Get layout position at the specified point.
    pub fn layout_position(&self, output: &Output, layouts: &Layouts, point: Point) -> (position:
        Option<LayoutPosition>)
        ensures
            position == self.spec_layout_position(output, layouts@, point),
    {
        let before: i64 = saturate_i64(self.x_offset as i128 - OFFSET_UNIT as i128);
        match self.layout_position_at(output, layouts, point, before) {
            Some(found) => {
                return found;
            },
            None => {},
        }
        match self.layout_position_at(output, layouts, point, self.x_offset) {
            Some(found) => {
                return found;
            },
            None => {},
        }
        let after: i64 = saturate_i64(self.x_offset as i128 + OFFSET_UNIT as i128);
        match self.layout_position_at(output, layouts, point, after) {
            Some(found) => found,
            None => None,
        }
    }

    /// The overview with its offsets brought back into their bounds, one
    /// step of the return to rest later.
    ///
    /// The horizontal offset may pass the first and the last of
    /// `window_count` layouts by the overdrag limit and no more. Once the
    /// touch is gone, the time since the last step moves it towards the
    /// nearest layout, never past it, and moves the vertical offset towards
    /// zero, never past it.
    pub open spec fn clamped(self, window_count: usize, now: u64) -> Overview {
        let lowest = min_offset(window_count as int);
        let x = clamp(self.x_offset as int, lowest - OVERDRAG_LIMIT, OVERDRAG_LIMIT as int);
        match self.last_animation_step {
            None => Overview { x_offset: x as i64, ..self },
            Some(last) => {
                let millis = if now >= last {
                    now - last
                } else {
                    0
                };
                Overview {
                    x_offset: returned(x, lowest, millis) as i64,
                    y_offset: lowered_towards_zero(self.y_offset as int, millis) as i64,
                    last_animation_step: Some(now),
                    ..self
                }
            },
        }
    }

    /// Clamp the X/Y offsets.
    ///
    /// This takes overdrag into account and will animate the bounce-back.
    pub fn clamp_offset(&mut self, window_count: usize, now: u64)
        ensures
            *final(self) == old(self).clamped(window_count, now),
            min_offset(window_count as int) - OVERDRAG_LIMIT <= final(self).x_offset <= OVERDRAG_LIMIT,
            magnitude(final(self).y_offset as int) <= magnitude(old(self).y_offset as int),
    {
        // Limit maximum overdrag.
        let lowest: i128 = lowest_offset(window_count);
        let x: i64 = limit_overdrag(self.x_offset, lowest);
        let last: u64 = match self.last_animation_step {
            Some(last) => last,
            None => {
                self.x_offset = x;
                return ;
            },
        };

        // Compute framerate-independent delta.
        let millis: u64 = if now >= last { now - last } else { 0 };

        // Horizontal bounce-back to closest valid integer offset.
        self.x_offset = bounce_back(x, lowest, millis);

        // Close window bounce-back.
        self.y_offset = fall_back(self.y_offset, millis);

        self.last_animation_step = Some(now);
    }

    /// `bounds` moved down by `distance` pixels.
    pub open spec fn lowered(bounds: Rectangle, distance: i64) -> Rectangle {
        Rectangle {
            loc: Point { x: bounds.loc.x, y: clamp_i32(bounds.loc.y + distance) },
            size: bounds.size,
        }
    }

    /// The elements that draw `layout` at `position`, and the vertical
    /// offset once they are drawn.
    ///
    /// The primary is drawn first. The window that is being closed is moved
    /// by the vertical offset, a primary upwards only and a secondary
    /// downwards only, so that the two do not cross; the offset is cut back
    /// to that.
    pub open spec fn layout_elements(
        &self,
        output: &Output,
        layout: Layout,
        position: OverviewPosition,
    ) -> (Seq<Element>, i64) {
        let closing = match self.drag_action {
            DragAction::Close(id) => Some(id),
            _ => None,
        };
        let above = match layout.primary {
            Some(window) if closing == Some(window.id) => min(self.y_offset as int, 0) as i64,
            _ => self.y_offset,
        };
        let below = match layout.secondary {
            Some(window) if closing == Some(window.id) => max(above as int, 0) as i64,
            _ => above,
        };
        (
            (match layout.primary {
                Some(window) => seq![
                    Element::Window {
                        window: window.id,
                        bounds: if closing == Some(window.id) {
                            Overview::lowered(position.bounds, above)
                        } else {
                            position.bounds
                        },
                        scale: position.scale,
                    },
                ],
                None => Seq::empty(),
            }) + (match layout.secondary {
                Some(window) => seq![
                    Element::Window {
                        window: window.id,
                        bounds: if closing == Some(window.id) {
                            Overview::lowered(position.spec_secondary_bounds(output), below)
                        } else {
                            position.spec_secondary_bounds(output)
                        },
                        scale: position.scale,
                    },
                ],
                None => Seq::empty(),
            }),
            below,
        )
    }

    /// The elements that draw the layout that is shown nearest to
    /// `offset`, if there is one, and the vertical offset once they are
    /// drawn.
    pub open spec fn slot_elements(
        &self,
        output: &Output,
        layouts: LayoutsView,
        offset: i64,
    ) -> (Seq<Element>, i64) {
        let index = -scaled(offset as int, 1, OFFSET_UNIT as int);
        if index < 0 || index >= layouts.layouts.len() {
            (Seq::empty(), self.y_offset)
        } else {
            self.layout_elements(
                output,
                layouts.layouts[index],
                OverviewPosition::spec_new(output.spec_available_overview(), self.x_offset, offset),
            )
        }
    }

    /// The elements that draw the overview at `now`, and the overview once
    /// they are drawn.
    ///
    /// The offsets are brought back into their bounds first. Up to three
    /// layouts are drawn: the one before the centre, the one in the centre
    /// and the one after it.
    pub open spec fn drawn(self, output: &Output, layouts: LayoutsView, now: u64) -> (
        Seq<Element>,
        Overview,
    ) {
        let clamped = self.clamped(layouts.layouts.len() as usize, now);
        let (before, first) = clamped.slot_elements(
            output,
            layouts,
            clamp_i64(clamped.x_offset - OFFSET_UNIT),
        );
        let centred = Overview { y_offset: first, ..clamped };
        let (centre, second) = centred.slot_elements(output, layouts, clamped.x_offset);
        let passed = Overview { y_offset: second, ..clamped };
        let (after, third) = passed.slot_elements(
            output,
            layouts,
            clamp_i64(clamped.x_offset + OFFSET_UNIT),
        );
        (before + centre + after, Overview { y_offset: third, ..clamped })
    }

    /// Draws one layout of the overview.
    fn draw_layout(
        &mut self,
        elements: &mut Vec<Element>,
        output: &Output,
        layouts: &Layouts,
        offset: i64,
    )
        ensures
            final(elements)@ == old(elements)@ + old(self).slot_elements(output, layouts@, offset).0,
            *final(self) == (Overview {
                y_offset: old(self).slot_elements(output, layouts@, offset).1,
                ..*old(self)
            }),
    {
        let slot: i64 = nearest_slot(offset);
        if slot > 0 || -(slot as i128) >= layouts.len() as i128 {
            assert(elements@ =~= old(elements)@ + Seq::<Element>::empty());
            return ;
        }
        // Get layout at offset index.
        let layout = match layouts.get((-(slot as i128)) as usize) {
            Some(layout) => layout,
            None => {
                return ;
            },
        };
        let position = OverviewPosition::new(output.available_overview(), self.x_offset, offset);
        let closing_window = self.drag_action.closing_window();
        let ghost drawn = old(self).layout_elements(output, layout, position);

        // Draw the primary window.
        match layout.primary {
            Some(primary) => {
                // Offset window if it's in the process of being closed.
                let mut bounds = position.bounds;
                if closing_window == Some(primary.id) {
                    // Prevent dragging primary/secondary across from each other.
                    if self.y_offset > 0 {
                        self.y_offset = 0;
                    }
                    bounds.loc.y = saturate_wide(bounds.loc.y as i128 + self.y_offset as i128);
                }
                elements.push(Element::Window { window: primary.id, bounds, scale: position.scale });
            },
            None => {},
        }
        // Draw the secondary window.
        match layout.secondary {
            Some(secondary) => {
                let mut bounds = position.secondary_bounds(output);

                // Offset window if it's in the process of being closed.
                if closing_window == Some(secondary.id) {
                    // Prevent dragging primary/secondary across from each other.
                    if self.y_offset < 0 {
                        self.y_offset = 0;
                    }
                    bounds.loc.y = saturate_wide(bounds.loc.y as i128 + self.y_offset as i128);
                }
                elements.push(Element::Window { window: secondary.id, bounds, scale: position.scale });
            },
            None => {},
        }
        assert(elements@ =~= old(elements)@ + drawn.0);
    }

    /// Render the overview.
    pub fn draw(&mut self, output: &Output, layouts: &Layouts, now: u64) -> (elements: Vec<Element>)
        ensures
            (elements@, *final(self)) == old(self).drawn(output, layouts@, now),
    {
        self.clamp_offset(layouts.len(), now);
        let x_offset: i64 = self.x_offset;
        let mut elements: Vec<Element> = Vec::new();

        // Draw up to three visible windows (center and one to each side).
        self.draw_layout(
            &mut elements,
            output,
            layouts,
            saturate_i64(x_offset as i128 - OFFSET_UNIT as i128),
        );
        self.draw_layout(&mut elements, output, layouts, x_offset);
        self.draw_layout(
            &mut elements,
            output,
            layouts,
            saturate_i64(x_offset as i128 + OFFSET_UNIT as i128),
        );
        assert(elements@ =~= old(self).drawn(output, layouts@, now).0);
        elements
    }

    /// Whether the window being closed was moved far enough to close it:
    /// by the close distance's part of the height of the overview.
    pub open spec fn spec_should_close(&self, output: &Output) -> bool {
        magnitude(self.y_offset as int) * OVERVIEW_CLOSE_DISTANCE >= output.spec_available_overview().size.h
    }

    /// Check if the active window has exceeded the minimum close distance.
    #[verifier::when_used_as_spec(spec_should_close)]
    pub fn should_close(&self, output: &Output) -> (close: bool)
        ensures
            close == self.spec_should_close(output),
    {
        let height: i128 = output.available_overview().size.h as i128;
        let moved: i128 = if self.y_offset >= 0 {
            self.y_offset as i128
        } else {
            -(self.y_offset as i128)
        };
        moved * 4 >= height
    }

    /// Whether the overview was dragged as far past its first or last
    /// layout as it goes.
    pub open spec fn spec_overdrag_limited(&self, window_count: usize) -> bool {
        self.x_offset <= min_offset(window_count as int) - OVERDRAG_LIMIT || self.x_offset
            >= OVERDRAG_LIMIT
    }

    /// Check if the overdrag has run into a hard limit.
    #[verifier::when_used_as_spec(spec_overdrag_limited)]
    pub fn overdrag_limited(&self, window_count: usize) -> (limited: bool)
        ensures
            limited == self.spec_overdrag_limited(window_count),
    {
        let lowest: i128 = lowest_offset(window_count);
        let limit: i64 = OVERDRAG_LIMIT;
        self.x_offset as i128 <= lowest - limit as i128 || self.x_offset >= limit
    }

    /// Whether the overview is away from rest: past its first or last
    /// layout, between two layouts, or with a window moved towards closing.
    pub open spec fn spec_animating_drag(&self, window_count: usize) -> bool {
        ||| self.x_offset > 0
        ||| self.x_offset < min_offset(window_count as int)
        ||| self.y_offset != 0
        ||| fraction(self.x_offset as int) != 0
    }

    /// Check if overview animations are active.
    #[verifier::when_used_as_spec(spec_animating_drag)]
    pub fn animating_drag(&self, window_count: usize) -> (animating: bool)
        ensures
            animating == self.spec_animating_drag(window_count),
    {
        let lowest: i128 = lowest_offset(window_count);
        self.x_offset > 0 || (self.x_offset as i128) < lowest || self.y_offset != 0 || fract(
            self.x_offset,
        ) != 0
    }
}

/// The horizontal offset `offset` after the overview has moved towards the
/// nearest layout for `millis` milliseconds; `lowest` is the offset of the
/// last layout.
///
/// An offset before the first layout or in the far half of the way to the
/// next layout falls, any other rises, and neither passes its goal: the
/// nearest layout that exists.
pub open spec fn returned(offset: int, lowest: int, millis: int) -> int {
    let target = clamp(nearest_layout(offset), lowest, 0);
    let step = millis * HORIZONTAL_DRAG_ANIMATION_SPEED;
    if offset > 0 || fraction(offset) <= -(OFFSET_UNIT / 2) {
        max(offset - step, target)
    } else {
        min(offset + step, target)
    }
}

/// The vertical offset `offset` after it has moved towards zero for
/// `millis` milliseconds.
pub open spec fn lowered_towards_zero(offset: int, millis: int) -> int {
    let step = millis * VERTICAL_DRAG_ANIMATION_SPEED / 3;
    if offset > 0 {
        offset - min(step, offset)
    } else {
        offset + min(step, -offset)
    }
}

/// Keeps a horizontal offset within the overdrag limit of the first layout
/// and of the last, whose offset is `lowest`.
fn limit_overdrag(offset: i64, lowest: i128) -> (limited: i64)
    requires
        -0x1_0000_0000_0000_0000_0000 <= lowest <= 0,
    ensures
        limited == clamp(offset as int, lowest - OVERDRAG_LIMIT, OVERDRAG_LIMIT as int),
        lowest - OVERDRAG_LIMIT <= limited <= OVERDRAG_LIMIT,
{
    if (offset as i128) < lowest - 375 {
        (lowest - 375) as i64
    } else if offset > 375 {
        375
    } else {
        offset
    }
}

/// Moves a horizontal offset towards the nearest layout.
fn bounce_back(offset: i64, lowest: i128, millis: u64) -> (moved: i64)
    requires
        -0x1_0000_0000_0000_0000_0000 <= lowest <= 0,
        lowest - OVERDRAG_LIMIT <= offset <= OVERDRAG_LIMIT,
    ensures
        moved == returned(offset as int, lowest as int, millis as int),
        lowest - OVERDRAG_LIMIT <= moved <= OVERDRAG_LIMIT,
{
    let step: i128 = millis as i128 * 20;
    let nearest: i128 = nearest_slot(offset) as i128 * 1500;
    let target: i128 = if nearest < lowest {
        lowest
    } else if nearest > 0 {
        0
    } else {
        nearest
    };
    let moved: i128 = if offset > 0 || fract(offset) <= -750 {
        if offset as i128 - step >= target {
            offset as i128 - step
        } else {
            target
        }
    } else {
        if offset as i128 + step <= target {
            offset as i128 + step
        } else {
            target
        }
    };
    moved as i64
}

/// Moves a vertical offset towards zero.
fn fall_back(offset: i64, millis: u64) -> (moved: i64)
    ensures
        moved == lowered_towards_zero(offset as int, millis as int),
        magnitude(moved as int) <= magnitude(offset as int),
{
    let step: i128 = millis as i128 * 10 / 3;
    let wide: i128 = offset as i128;
    let moved: i128 = if wide > 0 {
        wide - if step <= wide { step } else { wide }
    } else {
        wide + if step <= -wide { step } else { -wide }
    };
    moved as i64
}

/// Depth of a drop area on a side of length `extent`.
fn drop_depth(extent: i32) -> (depth: i32)
    requires
        extent >= 0,
    ensures
        depth == scaled(extent as int, DRAG_AND_DROP_PERCENTAGE as int, 100),
        0 <= depth <= extent,
{
    ((2 * (extent as i64 * 30) + 100) / 200) as i32
}

/// Drag and drop windows into tiling position.
#[derive(Clone, Copy, Debug, PartialEq, Eq, Structural)]
pub struct DragAndDrop {
    /// Distance that the window was dragged by.
    pub window_position: Point,
    /// Where the touch is.
    pub touch_position: Point,
    /// The window that is dragged.
    pub window: WindowId,
    /// Horizontal offset of the overview that the window was picked up in.
    pub overview_x_offset: i64,
    /// Where the window was shown in the overview.
    pub window_bounds: Rectangle,
    /// Scale that the window was shown with in the overview.
    pub scale: i64,
}

impl DragAndDrop {
    /// The drag of the window at `layout_position` out of `overview`.
    pub open spec fn spec_new(
        output: &Output,
        overview: &Overview,
        layout_position: LayoutPosition,
        window: WindowId,
    ) -> DragAndDrop {
        let window_x_offset = clamp_i64(
            overview.x_offset - nearest_layout(overview.x_offset as int) - layout_position.index
                * OFFSET_UNIT,
        );
        let position = OverviewPosition::spec_new(
            output.spec_available_overview(),
            overview.x_offset,
            window_x_offset,
        );
        DragAndDrop {
            window_position: Point { x: 0, y: 0 },
            touch_position: overview.last_drag_point,
            window,
            overview_x_offset: overview.x_offset,
            window_bounds: if layout_position.secondary {
                position.spec_secondary_bounds(output)
            } else {
                position.bounds
            },
            scale: position.scale,
        }
    }

    #[verifier::when_used_as_spec(spec_new)]
    pub fn new(
        output: &Output,
        overview: &Overview,
        layout_position: LayoutPosition,
        window: WindowId,
    ) -> (dnd: Self)
        ensures
            dnd == DragAndDrop::spec_new(output, overview, layout_position, window),
    {
        // Calculate X offset when one of the outside windows is being dragged.
        let slot: i64 = nearest_slot(overview.x_offset);
        let window_x_offset: i64 = saturate_i64(
            overview.x_offset as i128 - slot as i128 * 1500 - layout_position.index as i128 * 1500,
        );

        // Calculate layout position in overview.
        let position = OverviewPosition::new(
            output.available_overview(),
            overview.x_offset,
            window_x_offset,
        );

        // Calculate the bounds that the dragged window had in the overview.
        let window_bounds = if layout_position.secondary {
            position.secondary_bounds(output)
        } else {
            position.bounds
        };

        DragAndDrop {
            window_position: Point { x: 0, y: 0 },
            touch_position: overview.last_drag_point,
            window,
            overview_x_offset: overview.x_offset,
            window_bounds,
            scale: position.scale,
        }
    }

    /// Where the dragged window is shown.
    pub open spec fn spec_bounds(&self) -> Rectangle {
        Rectangle {
            loc: Point {
                x: clamp_i32(self.window_bounds.loc.x + self.window_position.x),
                y: clamp_i32(self.window_bounds.loc.y + self.window_position.y),
            },
            size: self.window_bounds.size,
        }
    }

    /// Where the dragged window is shown: its place in the overview, moved
    /// by the distance that it was dragged.
    #[verifier::when_used_as_spec(spec_bounds)]
    pub fn bounds(&self) -> (bounds: Rectangle)
        ensures
            bounds == self.spec_bounds(),
    {
        Rectangle {
            loc: Point {
                x: saturate(self.window_bounds.loc.x as i64 + self.window_position.x as i64),
                y: saturate(self.window_bounds.loc.y as i64 + self.window_position.y as i64),
            },
            size: self.window_bounds.size,
        }
    }

    /// The elements that draw the drag: the dragged window, then the two
    /// drop areas, each marked if the touch is in it.
    pub open spec fn drawn(&self, output: &Output) -> Seq<Element> {
        let (primary, secondary) = DragAndDrop::spec_drop_bounds(output);
        seq![
            Element::Window { window: self.window, bounds: self.spec_bounds(), scale: self.scale },
            Element::DropTarget { bounds: primary, active: primary.spec_contains(self.touch_position) },
            Element::DropTarget {
                bounds: secondary,
                active: secondary.spec_contains(self.touch_position),
            },
        ]
    }

    /// Draw the tiling location picker.
    pub fn draw(&self, output: &Output) -> (elements: Vec<Element>)
        ensures
            elements@ == self.drawn(output),
    {
        let mut elements: Vec<Element> = Vec::new();

        // Render the window being drag-and-dropped, offset by dragged distance.
        elements.push(Element::Window { window: self.window, bounds: self.bounds(), scale: self.scale });

        // Get bounds of the drop areas.
        let (primary_bounds, secondary_bounds) = self.drop_bounds(output);

        // Render the drop areas.
        elements.push(
            Element::DropTarget {
                bounds: primary_bounds,
                active: primary_bounds.contains(self.touch_position),
            },
        );
        elements.push(
            Element::DropTarget {
                bounds: secondary_bounds,
                active: secondary_bounds.contains(self.touch_position),
            },
        );
        assert(elements@ =~= self.drawn(output));
        elements
    }

    /// The areas that make a dropped window the primary and the secondary.
    ///
    /// They lie at the two ends of the longer side of the overview's area
    /// and take the drop percentage of that side each.
    pub open spec fn spec_drop_bounds(output: &Output) -> (Rectangle, Rectangle) {
        let available = output.spec_available_overview();
        if available.size.h > available.size.w {
            let depth = scaled(available.size.h as int, DRAG_AND_DROP_PERCENTAGE as int, 100);
            (
                Rectangle { loc: available.loc, size: Size { w: available.size.w, h: depth as i32 } },
                Rectangle {
                    loc: Point {
                        x: available.loc.x,
                        y: (available.loc.y + available.size.h - depth) as i32,
                    },
                    size: Size { w: available.size.w, h: depth as i32 },
                },
            )
        } else {
            let depth = scaled(available.size.w as int, DRAG_AND_DROP_PERCENTAGE as int, 100);
            (
                Rectangle { loc: available.loc, size: Size { w: depth as i32, h: available.size.h } },
                Rectangle {
                    loc: Point {
                        x: (available.loc.x + available.size.w - depth) as i32,
                        y: available.loc.y,
                    },
                    size: Size { w: depth as i32, h: available.size.h },
                },
            )
        }
    }

    /// Bounds for the drop preview areas of the D&D action.
    pub fn drop_bounds(&self, output: &Output) -> (bounds: (Rectangle, Rectangle))
        ensures
            bounds == DragAndDrop::spec_drop_bounds(output),
    {
        let available = output.available_overview();
        if available.size.h > available.size.w {
            let dnd_height: i32 = drop_depth(available.size.h);
            let primary = Rectangle {
                loc: available.loc,
                size: Size { w: available.size.w, h: dnd_height },
            };
            let secondary = Rectangle {
                loc: Point {
                    x: available.loc.x,
                    y: available.loc.y + (available.size.h - dnd_height),
                },
                size: primary.size,
            };
            (primary, secondary)
        } else {
            let dnd_width: i32 = drop_depth(available.size.w);
            let primary = Rectangle {
                loc: available.loc,
                size: Size { w: dnd_width, h: available.size.h },
            };
            let secondary = Rectangle {
                loc: Point {
                    x: available.loc.x + (available.size.w - dnd_width),
                    y: available.loc.y,
                },
                size: primary.size,
            };
            (primary, secondary)
        }
    }
}

} // verus!
