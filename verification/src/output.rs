//! The display that windows are laid out on.

use vstd::prelude::*;
use crate::geometry::{max, min, Point, Rectangle, Size};
use crate::orientation::Orientation;

verus! {

/// Height of the strip at the bottom edge that is reserved for gestures.
pub const GESTURE_HANDLE_HEIGHT: i32 = 15;

/// Share of the split axis that the primary window gets unless configured
/// otherwise, in percent.
pub const DEFAULT_PRIMARY_SHARE: i32 = 50;

/// An edge of the output.
#[derive(Clone, Copy, Debug, PartialEq, Eq, Structural)]
pub enum Edge {
    Top,
    Right,
    Bottom,
    Left,
}

/// Space along each edge that is reserved and unavailable to windows.
#[derive(Clone, Copy, Debug, PartialEq, Eq, Structural)]
pub struct Exclusive {
    pub top: i32,
    pub right: i32,
    pub bottom: i32,
    pub left: i32,
}

/// Output state that a rendered frame is tied to.
#[derive(Clone, Copy, Debug, PartialEq, Eq, Structural)]
pub struct Canvas {
    pub size: Size,
    pub orientation: Orientation,
}

/// A display, as far as window placement is concerned.
#[derive(Clone, Copy, Debug, PartialEq, Eq, Structural)]
pub struct Output {
    /// Extent of the display with the device held upright.
    pub resolution: Size,
    /// Current orientation of the device.
    pub orientation: Orientation,
    /// Space reserved along the edges.
    pub exclusive: Exclusive,
    /// Share of the split axis that the primary window gets, in percent;
    /// values outside of 50 to 100 count as the nearest of the two.
    pub primary_share: i32,
    /// Number of pixels of the display per logical pixel along each axis;
    /// values below one count as one.
    pub scale: i32,
}

/// `value` if it is positive, zero otherwise.
pub open spec fn non_negative(value: int) -> int {
    max(value, 0)
}

/// The part of `extent` that goes to the primary window when it shares the
/// extent with a secondary: `share` percent of it, rounded up. A share
/// below 50 counts as 50, one above 100 as 100.
pub open spec fn primary_extent(extent: int, share: int) -> int {
    if share <= 50 {
        (extent * 50 + 99) / 100
    } else if share >= 100 {
        extent
    } else {
        (extent * share + 99) / 100
    }
}

/// The primary window gets at least half of a shared extent and never more
/// than all of it.
pub proof fn primary_extent_bounds(extent: int, share: int)
    requires
        extent >= 0,
    ensures
        extent - primary_extent(extent, share) <= primary_extent(extent, share) <= extent,
{
    if 50 < share < 100 {
        assert(extent * 50 <= extent * share <= extent * 100) by (nonlinear_arith)
            requires
                extent >= 0,
                50 <= share <= 100,
        ;
    }
}

impl Exclusive {
    /// No reserved space.
    pub fn none() -> (exclusive: Self)
        ensures
            exclusive == (Exclusive { top: 0, right: 0, bottom: 0, left: 0 }),
    {
        Exclusive { top: 0, right: 0, bottom: 0, left: 0 }
    }

    /// Space reserved along `edge`.
    pub open spec fn spec_at(self, edge: Edge) -> i32 {
        match edge {
            Edge::Top => self.top,
            Edge::Right => self.right,
            Edge::Bottom => self.bottom,
            Edge::Left => self.left,
        }
    }

    #[verifier::when_used_as_spec(spec_at)]
    pub fn at(self, edge: Edge) -> (reserved: i32)
        ensures
            reserved == self.spec_at(edge),
    {
        match edge {
            Edge::Top => self.top,
            Edge::Right => self.right,
            Edge::Bottom => self.bottom,
            Edge::Left => self.left,
        }
    }

    /// The reservation with the space along `edge` replaced.
    pub open spec fn spec_with(self, edge: Edge, reserved: i32) -> Exclusive {
        match edge {
            Edge::Top => Exclusive { top: reserved, ..self },
            Edge::Right => Exclusive { right: reserved, ..self },
            Edge::Bottom => Exclusive { bottom: reserved, ..self },
            Edge::Left => Exclusive { left: reserved, ..self },
        }
    }

    /// The reservation after a window that held `zone` along `edge` has
    /// gone: if its claim was the one that stood, the edge is free again.
    pub open spec fn spec_reset(self, edge: Edge, zone: i32) -> Exclusive {
        if self.spec_at(edge) == zone {
            self.spec_with(edge, 0)
        } else {
            self
        }
    }

    /// The reservation after a window has claimed `zone` along `edge`: the
    /// larger of the two claims stands.
    pub open spec fn spec_claim(self, edge: Edge, zone: i32) -> Exclusive {
        self.spec_with(edge, max(self.spec_at(edge) as int, zone as int) as i32)
    }

    fn with(self, edge: Edge, reserved: i32) -> (exclusive: Self)
        ensures
            exclusive == self.spec_with(edge, reserved),
    {
        match edge {
            Edge::Top => Exclusive { top: reserved, ..self },
            Edge::Right => Exclusive { right: reserved, ..self },
            Edge::Bottom => Exclusive { bottom: reserved, ..self },
            Edge::Left => Exclusive { left: reserved, ..self },
        }
    }

    /// Gives back the space that a window held along `edge`.
    pub fn reset(&mut self, edge: Edge, zone: i32)
        ensures
            *final(self) == old(self).spec_reset(edge, zone),
    {
        if self.at(edge) == zone {
            *self = self.with(edge, 0);
        }
    }

    /// Reserves `zone` along `edge` unless more is reserved there already.
    pub fn claim(&mut self, edge: Edge, zone: i32)
        ensures
            *final(self) == old(self).spec_claim(edge, zone),
    {
        let held: i32 = self.at(edge);
        *self = self.with(edge, if held >= zone { held } else { zone });
    }
}

impl Output {
    /// An upright output of the given extent with nothing reserved.
    pub fn new(width: i32, height: i32) -> (output: Self)
        ensures
            output == (Output {
                resolution: Size { w: width, h: height },
                orientation: Orientation::Portrait,
                exclusive: Exclusive { top: 0, right: 0, bottom: 0, left: 0 },
                primary_share: DEFAULT_PRIMARY_SHARE,
                scale: 1,
            }),
    {
        Output {
            resolution: Size { w: width, h: height },
            orientation: Orientation::Portrait,
            exclusive: Exclusive::none(),
            primary_share: DEFAULT_PRIMARY_SHARE,
            scale: 1,
        }
    }

    /// Number of pixels of the display per logical pixel.
    pub open spec fn spec_scale(&self) -> i32 {
        if self.scale > 1 {
            self.scale
        } else {
            1
        }
    }

    /// Number of pixels of the display per logical pixel.
    #[verifier::when_used_as_spec(spec_scale)]
    pub fn scale(&self) -> (scale: i32)
        ensures
            scale == self.spec_scale(),
            scale >= 1,
    {
        if self.scale > 1 {
            self.scale
        } else {
            1
        }
    }

    /// Extent of the frame buffer in pixels of the display: that of the
    /// output held upright, whichever way it is held.
    pub open spec fn spec_physical_resolution(&self) -> Size {
        Size {
            w: crate::geometry::clamp_i32(non_negative(self.resolution.w as int) * self.spec_scale()),
            h: crate::geometry::clamp_i32(non_negative(self.resolution.h as int) * self.spec_scale()),
        }
    }

    /// Extent of the frame buffer in pixels of the display.
    #[verifier::when_used_as_spec(spec_physical_resolution)]
    pub fn physical_resolution(&self) -> (resolution: Size)
        ensures
            resolution == self.spec_physical_resolution(),
            resolution.w >= 0,
            resolution.h >= 0,
    {
        let scale: i64 = self.scale() as i64;
        let w: i64 = if self.resolution.w > 0 { self.resolution.w as i64 } else { 0 };
        let h: i64 = if self.resolution.h > 0 { self.resolution.h as i64 } else { 0 };
        assert(0 <= w * scale <= 0x8000_0000 * 0x8000_0000 && 0 <= h * scale <= 0x8000_0000
            * 0x8000_0000) by (nonlinear_arith)
            requires
                0 <= w <= 0x8000_0000,
                0 <= h <= 0x8000_0000,
                1 <= scale <= 0x8000_0000,
        ;
        Size { w: crate::geometry::saturate(w * scale), h: crate::geometry::saturate(h * scale) }
    }

    /// Extent of the output as it is held: in landscape the sides of the
    /// resolution trade places. A negative side counts as zero.
    pub open spec fn spec_size(&self) -> Size {
        if self.orientation.spec_is_landscape() {
            Size {
                w: non_negative(self.resolution.h as int) as i32,
                h: non_negative(self.resolution.w as int) as i32,
            }
        } else {
            Size {
                w: non_negative(self.resolution.w as int) as i32,
                h: non_negative(self.resolution.h as int) as i32,
            }
        }
    }

    /// Extent of the output as it is held.
    #[verifier::when_used_as_spec(spec_size)]
    pub fn size(&self) -> (size: Size)
        ensures
            size == self.spec_size(),
            size.w >= 0,
            size.h >= 0,
    {
        let w: i32 = if self.resolution.w > 0 { self.resolution.w } else { 0 };
        let h: i32 = if self.resolution.h > 0 { self.resolution.h } else { 0 };
        if self.orientation.is_landscape() {
            Size { w: h, h: w }
        } else {
            Size { w, h }
        }
    }

    /// Output state for rendering.
    pub open spec fn spec_canvas(&self) -> Canvas {
        Canvas { size: self.spec_size(), orientation: self.orientation }
    }

    /// Output state for rendering.
    #[verifier::when_used_as_spec(spec_canvas)]
    pub fn canvas(&self) -> (canvas: Canvas)
        ensures
            canvas == self.spec_canvas(),
    {
        Canvas { size: self.size(), orientation: self.orientation }
    }

    /// Current orientation of the output.
    pub fn orientation(&self) -> (orientation: Orientation)
        ensures
            orientation == self.orientation,
    {
        self.orientation
    }

    /// Turns the output.
    pub fn set_orientation(&mut self, orientation: Orientation)
        ensures
            *final(self) == (Output { orientation, ..*old(self) }),
    {
        self.orientation = orientation;
    }

    /// Space reserved along the edges.
    pub fn exclusive(&self) -> (exclusive: Exclusive)
        ensures
            exclusive == self.exclusive,
    {
        self.exclusive
    }

    /// The area that is left for windows once the reserved space along the
    /// edges is taken away. It never leaves the output and is never
    /// negative in extent.
    pub open spec fn spec_available(&self) -> Rectangle {
        let size = self.spec_size();
        let left = non_negative(self.exclusive.left as int);
        let right = non_negative(self.exclusive.right as int);
        let top = non_negative(self.exclusive.top as int);
        let bottom = non_negative(self.exclusive.bottom as int);
        Rectangle {
            loc: Point { x: min(left, size.w as int) as i32, y: min(top, size.h as int) as i32 },
            size: Size {
                w: non_negative(size.w - left - right) as i32,
                h: non_negative(size.h - top - bottom) as i32,
            },
        }
    }

    /// The area that is left for windows.
    #[verifier::when_used_as_spec(spec_available)]
    pub fn available(&self) -> (available: Rectangle)
        ensures
            available == self.spec_available(),
            available.loc.x >= 0,
            available.loc.y >= 0,
            available.size.w >= 0,
            available.size.h >= 0,
            available.right() <= self.spec_size().w,
            available.bottom() <= self.spec_size().h,
    {
        let size = self.size();
        let left: i64 = if self.exclusive.left > 0 { self.exclusive.left as i64 } else { 0 };
        let right: i64 = if self.exclusive.right > 0 { self.exclusive.right as i64 } else { 0 };
        let top: i64 = if self.exclusive.top > 0 { self.exclusive.top as i64 } else { 0 };
        let bottom: i64 = if self.exclusive.bottom > 0 { self.exclusive.bottom as i64 } else { 0 };
        let w: i64 = size.w as i64 - left - right;
        let h: i64 = size.h as i64 - top - bottom;
        let x: i64 = if left <= size.w as i64 { left } else { size.w as i64 };
        let y: i64 = if top <= size.h as i64 { top } else { size.h as i64 };
        Rectangle {
            loc: Point { x: x as i32, y: y as i32 },
            size: Size { w: if w > 0 { w as i32 } else { 0 }, h: if h > 0 { h as i32 } else { 0 } },
        }
    }

    /// Whether a shared area is split into an upper and a lower part rather
    /// than a left and a right one: the longer side is the one divided.
    pub open spec fn spec_splits_vertically(&self) -> bool {
        self.spec_available().size.h > self.spec_available().size.w
    }

    /// Where the primary window of a layout goes: the whole available area
    /// if it is alone, else the leading part of it along the split axis.
    pub open spec fn spec_primary_rectangle(&self, secondary_visible: bool) -> Rectangle {
        let available = self.spec_available();
        if !secondary_visible {
            available
        } else if self.spec_splits_vertically() {
            Rectangle {
                loc: available.loc,
                size: Size {
                    w: available.size.w,
                    h: primary_extent(available.size.h as int, self.primary_share as int) as i32,
                },
            }
        } else {
            Rectangle {
                loc: available.loc,
                size: Size {
                    w: primary_extent(available.size.w as int, self.primary_share as int) as i32,
                    h: available.size.h,
                },
            }
        }
    }

    /// Where the secondary window of a layout goes: what the primary leaves
    /// of the available area.
    pub open spec fn spec_secondary_rectangle(&self) -> Rectangle {
        let available = self.spec_available();
        if self.spec_splits_vertically() {
            let taken = primary_extent(available.size.h as int, self.primary_share as int);
            Rectangle {
                loc: Point { x: available.loc.x, y: (available.loc.y + taken) as i32 },
                size: Size { w: available.size.w, h: (available.size.h - taken) as i32 },
            }
        } else {
            let taken = primary_extent(available.size.w as int, self.primary_share as int);
            Rectangle {
                loc: Point { x: (available.loc.x + taken) as i32, y: available.loc.y },
                size: Size { w: (available.size.w - taken) as i32, h: available.size.h },
            }
        }
    }

    /// The part of `extent` that goes to the primary of two windows.
    fn primary_part(&self, extent: i32) -> (part: i32)
        requires
            extent >= 0,
        ensures
            part == primary_extent(extent as int, self.primary_share as int),
            extent - part <= part <= extent,
    {
        let share: i64 = if self.primary_share < 50 {
            50
        } else if self.primary_share > 100 {
            100
        } else {
            self.primary_share as i64
        };
        proof {
            primary_extent_bounds(extent as int, self.primary_share as int);
            assert(0 <= extent * share <= extent * 100) by (nonlinear_arith)
                requires
                    extent >= 0,
                    50 <= share <= 100,
            ;
        }
        let part: i64 = (extent as i64 * share + 99) / 100;
        part as i32
    }

    /// Where the primary window of a layout goes.
    #[verifier::when_used_as_spec(spec_primary_rectangle)]
    pub fn primary_rectangle(&self, secondary_visible: bool) -> (rect: Rectangle)
        ensures
            rect == self.spec_primary_rectangle(secondary_visible),
    {
        let available = self.available();
        if !secondary_visible {
            available
        } else if available.size.h > available.size.w {
            let part = self.primary_part(available.size.h);
            Rectangle { loc: available.loc, size: Size { w: available.size.w, h: part } }
        } else {
            let part = self.primary_part(available.size.w);
            Rectangle { loc: available.loc, size: Size { w: part, h: available.size.h } }
        }
    }

    /// Where the secondary window of a layout goes.
    #[verifier::when_used_as_spec(spec_secondary_rectangle)]
    pub fn secondary_rectangle(&self) -> (rect: Rectangle)
        ensures
            rect == self.spec_secondary_rectangle(),
    {
        let available = self.available();
        if available.size.h > available.size.w {
            let part = self.primary_part(available.size.h);
            Rectangle {
                loc: Point { x: available.loc.x, y: available.loc.y + part },
                size: Size { w: available.size.w, h: available.size.h - part },
            }
        } else {
            let part = self.primary_part(available.size.w);
            Rectangle {
                loc: Point { x: available.loc.x + part, y: available.loc.y },
                size: Size { w: available.size.w - part, h: available.size.h },
            }
        }
    }

    /// The area that the overview is laid out in.
    pub open spec fn spec_available_overview(&self) -> Rectangle {
        self.spec_available()
    }

    /// The area that the overview is laid out in.
    #[verifier::when_used_as_spec(spec_available_overview)]
    pub fn available_overview(&self) -> (available: Rectangle)
        ensures
            available == self.spec_available_overview(),
            available.loc.x >= 0,
            available.loc.y >= 0,
            available.size.w >= 0,
            available.size.h >= 0,
            available.right() <= self.spec_size().w,
            available.bottom() <= self.spec_size().h,
    {
        self.available()
    }

    /// The area of a fullscreened window: all of the output.
    pub open spec fn spec_available_fullscreen(&self) -> Rectangle {
        Rectangle { loc: Point { x: 0, y: 0 }, size: self.spec_size() }
    }

    /// The area of a fullscreened window.
    #[verifier::when_used_as_spec(spec_available_fullscreen)]
    pub fn available_fullscreen(&self) -> (available: Rectangle)
        ensures
            available == self.spec_available_fullscreen(),
    {
        Rectangle { loc: Point { x: 0, y: 0 }, size: self.size() }
    }
}

} // verus!
