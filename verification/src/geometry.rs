//! Integer geometry in logical coordinates.

use vstd::prelude::*;
use crate::text::{chars_of, parse_i32, parsed_i32, split, split_at, texts, trim, trimmed};

verus! {

/// A location in logical coordinates.
#[derive(Clone, Copy, Debug, PartialEq, Eq, Structural)]
pub struct Point {
    pub x: i32,
    pub y: i32,
}

/// A two dimensional extent in logical coordinates.
#[derive(Clone, Copy, Debug, PartialEq, Eq, Structural)]
pub struct Size {
    pub w: i32,
    pub h: i32,
}

/// An axis aligned rectangle, given by its top-left corner and its extent.
#[derive(Clone, Copy, Debug, PartialEq, Eq, Structural)]
pub struct Rectangle {
    pub loc: Point,
    pub size: Size,
}

impl Point {
    pub fn new(x: i32, y: i32) -> (point: Self)
        ensures
            point == (Point { x, y }),
    {
        Point { x, y }
    }
}

impl Size {
    pub fn new(w: i32, h: i32) -> (size: Self)
        ensures
            size == (Size { w, h }),
    {
        Size { w, h }
    }

    /// Whether the extent covers no area: a side is zero, or negative.
    pub open spec fn spec_is_empty(self) -> bool {
        self.w <= 0 || self.h <= 0
    }

    /// Whether the extent covers no area. For an extent without a negative
    /// side, which is all that `smithay::utils::Size` holds, that is the
    /// case when a side is zero.
    #[verifier::when_used_as_spec(spec_is_empty)]
    pub fn is_empty(self) -> (empty: bool)
        ensures
            empty == self.spec_is_empty(),
            self.w >= 0 && self.h >= 0 ==> empty == (self.w == 0 || self.h == 0),
    {
        self.w <= 0 || self.h <= 0
    }
}

impl Rectangle {
    pub fn new(loc: Point, size: Size) -> (rect: Self)
        ensures
            rect == (Rectangle { loc, size }),
    {
        Rectangle { loc, size }
    }

    /// The first column right of the rectangle.
    pub open spec fn right(self) -> int {
        self.loc.x + self.size.w
    }

    /// The first row below the rectangle.
    pub open spec fn bottom(self) -> int {
        self.loc.y + self.size.h
    }

    /// Whether `point` lies inside the rectangle; the right and bottom edges
    /// are outside.
    pub open spec fn spec_contains(self, point: Point) -> bool {
        &&& self.loc.x <= point.x < self.right()
        &&& self.loc.y <= point.y < self.bottom()
    }

    /// The first column right of the rectangle, stopping at the bounds of
    /// the type.
    pub open spec fn saturating_right(self) -> i32 {
        clamp_i32(self.right())
    }

    /// The first row below the rectangle, stopping at the bounds of the
    /// type.
    pub open spec fn saturating_bottom(self) -> i32 {
        clamp_i32(self.bottom())
    }

    /// Whether `point` lies inside the rectangle, with the far edges found
    /// by saturating sums, as `smithay::utils::Rectangle::contains` finds
    /// them.
    pub open spec fn saturating_contains(self, point: Point) -> bool {
        &&& self.loc.x <= point.x < self.saturating_right()
        &&& self.loc.y <= point.y < self.saturating_bottom()
    }

    /// Whether the two rectangles share area, with the far edges found by
    /// saturating sums, as `smithay::utils::Rectangle::overlaps` finds
    /// them.
    pub open spec fn saturating_overlaps(self, other: Rectangle) -> bool {
        &&& self.loc.x < other.saturating_right()
        &&& other.loc.x < self.saturating_right()
        &&& self.loc.y < other.saturating_bottom()
        &&& other.loc.y < self.saturating_bottom()
    }

    /// Whether `other` lies inside the rectangle, with the far edges found
    /// by saturating sums, as `smithay::utils::Rectangle::contains_rect`
    /// finds them.
    pub open spec fn saturating_contains_rect(self, other: Rectangle) -> bool {
        &&& other.loc.x >= self.loc.x
        &&& other.loc.y >= self.loc.y
        &&& other.saturating_right() <= self.saturating_right()
        &&& other.saturating_bottom() <= self.saturating_bottom()
    }

    /// The area shared by two rectangles, with all sums and differences
    /// saturating, as `smithay::utils::Rectangle::intersection` finds it.
    pub open spec fn saturating_intersection(self, other: Rectangle) -> Option<Rectangle> {
        if self.saturating_overlaps(other) {
            let left = max(self.loc.x as int, other.loc.x as int);
            let top = max(self.loc.y as int, other.loc.y as int);
            Some(
                Rectangle {
                    loc: Point { x: left as i32, y: top as i32 },
                    size: Size {
                        w: clamp_i32(
                            min(self.saturating_right() as int, other.saturating_right() as int)
                                - left,
                        ),
                        h: clamp_i32(
                            min(self.saturating_bottom() as int, other.saturating_bottom() as int)
                                - top,
                        ),
                    },
                },
            )
        } else {
            None
        }
    }

    /// Whether `point` lies inside the rectangle. The far edges are exact
    /// sums; for a rectangle that fits, saturating sums give the same.
    #[verifier::when_used_as_spec(spec_contains)]
    pub fn contains(self, point: Point) -> (inside: bool)
        ensures
            inside == self.spec_contains(point),
            self.fits() ==> inside == self.saturating_contains(point),
    {
        point.x >= self.loc.x && (point.x as i64) < self.loc.x as i64 + self.size.w as i64
            && point.y >= self.loc.y && (point.y as i64) < self.loc.y as i64 + self.size.h as i64
    }

    /// The rectangle in pixels of a display that has `scale` pixels per
    /// logical pixel; coordinates that the type does not hold stop at its
    /// bounds.
    pub open spec fn spec_to_physical(self, scale: i32) -> Rectangle {
        Rectangle {
            loc: Point { x: clamp_i32(self.loc.x * scale), y: clamp_i32(self.loc.y * scale) },
            size: Size { w: clamp_i32(self.size.w * scale), h: clamp_i32(self.size.h * scale) },
        }
    }

    /// The rectangle in pixels of a display.
    #[verifier::when_used_as_spec(spec_to_physical)]
    pub fn to_physical(self, scale: i32) -> (physical: Rectangle)
        ensures
            physical == self.spec_to_physical(scale),
    {
        Rectangle {
            loc: Point { x: times(self.loc.x, scale), y: times(self.loc.y, scale) },
            size: Size { w: times(self.size.w, scale), h: times(self.size.h, scale) },
        }
    }

    /// Whether the rectangle covers no area.
    pub open spec fn spec_is_empty(self) -> bool {
        self.size.spec_is_empty()
    }

    /// Whether the rectangle covers no area. For a rectangle that fits
    /// that is the case when a side is zero.
    #[verifier::when_used_as_spec(spec_is_empty)]
    pub fn is_empty(self) -> (empty: bool)
        ensures
            empty == self.spec_is_empty(),
            self.fits() ==> empty == (self.size.w == 0 || self.size.h == 0),
    {
        self.size.is_empty()
    }

    /// Whether the extent is not negative and the far corner is a valid
    /// coordinate.
    pub open spec fn fits(self) -> bool {
        &&& self.size.w >= 0
        &&& self.size.h >= 0
        &&& self.right() <= i32::MAX
        &&& self.bottom() <= i32::MAX
    }

    /// Whether the two rectangles share area; touching edges do not count.
    pub open spec fn spec_overlaps(self, other: Rectangle) -> bool {
        &&& self.loc.x < other.right()
        &&& other.loc.x < self.right()
        &&& self.loc.y < other.bottom()
        &&& other.loc.y < self.bottom()
    }

    /// Whether the two rectangles share area. The far edges are exact
    /// sums; for rectangles that fit, saturating sums give the same.
    #[verifier::when_used_as_spec(spec_overlaps)]
    pub fn overlaps(self, other: Rectangle) -> (shared: bool)
        ensures
            shared == self.spec_overlaps(other),
            self.fits() && other.fits() ==> shared == self.saturating_overlaps(other),
    {
        (self.loc.x as i64) < other.loc.x as i64 + other.size.w as i64
            && (other.loc.x as i64) < self.loc.x as i64 + self.size.w as i64
            && (self.loc.y as i64) < other.loc.y as i64 + other.size.h as i64
            && (other.loc.y as i64) < self.loc.y as i64 + self.size.h as i64
    }

    /// Whether `other` starts inside the rectangle and does not extend
    /// beyond it.
    pub open spec fn spec_contains_rect(self, other: Rectangle) -> bool {
        &&& other.loc.x >= self.loc.x
        &&& other.loc.y >= self.loc.y
        &&& other.right() <= self.right()
        &&& other.bottom() <= self.bottom()
    }

    /// Whether `other` lies inside the rectangle. The far edges are exact
    /// sums; for rectangles that fit, saturating sums give the same.
    #[verifier::when_used_as_spec(spec_contains_rect)]
    pub fn contains_rect(self, other: Rectangle) -> (inside: bool)
        ensures
            inside == self.spec_contains_rect(other),
            self.fits() && other.fits() ==> inside == self.saturating_contains_rect(other),
    {
        other.loc.x >= self.loc.x && other.loc.y >= self.loc.y
            && other.loc.x as i64 + other.size.w as i64 <= self.loc.x as i64 + self.size.w as i64
            && other.loc.y as i64 + other.size.h as i64 <= self.loc.y as i64 + self.size.h as i64
    }

    /// The area shared by two rectangles, if there is any.
    pub open spec fn spec_intersection(self, other: Rectangle) -> Option<Rectangle> {
        if self.spec_overlaps(other) {
            let left = max(self.loc.x as int, other.loc.x as int);
            let top = max(self.loc.y as int, other.loc.y as int);
            Some(
                Rectangle {
                    loc: Point { x: left as i32, y: top as i32 },
                    size: Size {
                        w: (min(self.right(), other.right()) - left) as i32,
                        h: (min(self.bottom(), other.bottom()) - top) as i32,
                    },
                },
            )
        } else {
            None
        }
    }

    /// The area shared by two rectangles. Sums and differences are exact;
    /// for rectangles that fit, saturating ones give the same.
    #[verifier::when_used_as_spec(spec_intersection)]
    pub fn intersection(self, other: Rectangle) -> (shared: Option<Rectangle>)
        ensures
            shared == self.spec_intersection(other),
            self.fits() && other.fits() ==> shared == self.saturating_intersection(other),
            shared matches Some(rect) ==> {
                &&& rect.right() == min(self.right(), other.right())
                &&& rect.bottom() == min(self.bottom(), other.bottom())
                &&& self.size.w > 0 && other.size.w > 0 ==> rect.size.w > 0
                &&& self.size.h > 0 && other.size.h > 0 ==> rect.size.h > 0
            },
    {
        if !self.overlaps(other) {
            return None;
        }
        let left: i32 = if self.loc.x >= other.loc.x { self.loc.x } else { other.loc.x };
        let top: i32 = if self.loc.y >= other.loc.y { self.loc.y } else { other.loc.y };
        let self_right: i64 = self.loc.x as i64 + self.size.w as i64;
        let other_right: i64 = other.loc.x as i64 + other.size.w as i64;
        let self_bottom: i64 = self.loc.y as i64 + self.size.h as i64;
        let other_bottom: i64 = other.loc.y as i64 + other.size.h as i64;
        let right: i64 = if self_right <= other_right { self_right } else { other_right };
        let bottom: i64 = if self_bottom <= other_bottom { self_bottom } else { other_bottom };
        let w: i64 = right - left as i64;
        let h: i64 = bottom - top as i64;
        Some(Rectangle { loc: Point { x: left, y: top }, size: Size { w: w as i32, h: h as i32 } })
    }
}

/// The larger of two integers.
pub open spec fn max(a: int, b: int) -> int {
    if a >= b { a } else { b }
}

/// The smaller of two integers.
pub open spec fn min(a: int, b: int) -> int {
    if a <= b { a } else { b }
}

/// `value` if it is positive, zero otherwise.
pub open spec fn non_negative_i32(value: i32) -> i32 {
    if value > 0 {
        value
    } else {
        0
    }
}

/// The nearest `i32` to `value`.
pub open spec fn clamp_i32(value: int) -> i32 {
    if value < i32::MIN {
        i32::MIN
    } else if value > i32::MAX {
        i32::MAX
    } else {
        value as i32
    }
}

/// Narrows a wide integer to `i32`, stopping at the bounds of the type.
pub fn saturate(value: i64) -> (narrow: i32)
    ensures
        narrow == clamp_i32(value as int),
{
    if value < i32::MIN as i64 {
        i32::MIN
    } else if value > i32::MAX as i64 {
        i32::MAX
    } else {
        value as i32
    }
}

/// `a * b`, stopping at the bounds of the type.
fn times(a: i32, b: i32) -> (product: i32)
    ensures
        product == clamp_i32(a * b),
{
    assert(-0x8000_0000 * 0x8000_0000 <= a * b <= 0x8000_0000 * 0x8000_0000) by (nonlinear_arith)
        requires
            -0x8000_0000 <= a <= 0x8000_0000,
            -0x8000_0000 <= b <= 0x8000_0000,
    ;
    saturate(a as i64 * b as i64)
}

/// `a + b`, stopping at the bounds of the type.
pub fn saturating_add(a: i32, b: i32) -> (sum: i32)
    ensures
        sum == clamp_i32(a + b),
{
    saturate(a as i64 + b as i64)
}

/// `a - b`, stopping at the bounds of the type.
pub fn saturating_sub(a: i32, b: i32) -> (difference: i32)
    ensures
        difference == clamp_i32(a - b),
{
    saturate(a as i64 - b as i64)
}

/// A point in the 3 dimensional space.
#[derive(Debug, Clone, Copy, PartialEq, Eq, Default)]
pub struct Vector3D<T> {
    pub x: T,
    pub y: T,
    pub z: T,
}

impl<T> Vector3D<T> {
    #[inline]
    pub fn new(x: T, y: T, z: T) -> (vector: Self)
        ensures
            vector.x == x,
            vector.y == y,
            vector.z == z,
    {
        Self { x, y, z }
    }
}

/// Helper trait for converting into a 2D vector.
pub trait IntoVector {
    /// The two coordinates of the value.
    spec fn vector(&self) -> (i32, i32);

    fn as_vector(&self) -> (vector: (i32, i32))
        ensures
            vector == self.vector(),
    ;
}

impl IntoVector for Point {
    open spec fn vector(&self) -> (i32, i32) {
        (self.x, self.y)
    }

    fn as_vector(&self) -> (vector: (i32, i32)) {
        (self.x, self.y)
    }
}

impl IntoVector for Size {
    open spec fn vector(&self) -> (i32, i32) {
        (self.w, self.h)
    }

    fn as_vector(&self) -> (vector: (i32, i32)) {
        (self.w, self.h)
    }
}

/// Arithmetic on each of the two coordinates of a value.
pub trait Vector: Sized + IntoVector {
    /// The value with the coordinates given.
    spec fn from_vector(vector: (i32, i32)) -> Self;

    /// Compare and return the smaller of each individual dimensions.
    fn min(&self, other: Self) -> (smaller: Self)
        ensures
            smaller == Self::from_vector(
                (
                    self::min(self.vector().0 as int, other.vector().0 as int) as i32,
                    self::min(self.vector().1 as int, other.vector().1 as int) as i32,
                ),
            ),
    ;

    /// Compare and return the bigger of each individual dimensions.
    fn max(&self, other: Self) -> (bigger: Self)
        ensures
            bigger == Self::from_vector(
                (
                    self::max(self.vector().0 as int, other.vector().0 as int) as i32,
                    self::max(self.vector().1 as int, other.vector().1 as int) as i32,
                ),
            ),
    ;

    /// Subtract one vector from another; a difference that the type does
    /// not hold stops at its bounds.
    fn sub(&self, other: Self) -> (difference: Self)
        ensures
            difference == Self::from_vector(
                (
                    clamp_i32(self.vector().0 - other.vector().0),
                    clamp_i32(self.vector().1 - other.vector().1),
                ),
            ),
    ;

    /// Scale the size by a scaling factor, given as a fraction; each
    /// coordinate is rounded to the nearest integer.
    fn scale(&self, numerator: i64, denominator: i64) -> (scaled: Self)
        requires
            denominator > 0,
        ensures
            scaled == Self::from_vector(
                (
                    clamp_i32(
                        crate::overview::scaled(
                            self.vector().0 as int,
                            numerator as int,
                            denominator as int,
                        ),
                    ),
                    clamp_i32(
                        crate::overview::scaled(
                            self.vector().1 as int,
                            numerator as int,
                            denominator as int,
                        ),
                    ),
                ),
            ),
    ;
}

impl Vector for Point {
    open spec fn from_vector(vector: (i32, i32)) -> Point {
        Point { x: vector.0, y: vector.1 }
    }

    fn min(&self, other: Self) -> (smaller: Self) {
        Point {
            x: if self.x <= other.x { self.x } else { other.x },
            y: if self.y <= other.y { self.y } else { other.y },
        }
    }

    fn max(&self, other: Self) -> (bigger: Self) {
        Point {
            x: if self.x >= other.x { self.x } else { other.x },
            y: if self.y >= other.y { self.y } else { other.y },
        }
    }

    fn sub(&self, other: Self) -> (difference: Self) {
        Point { x: saturating_sub(self.x, other.x), y: saturating_sub(self.y, other.y) }
    }

    fn scale(&self, numerator: i64, denominator: i64) -> (scaled: Self) {
        Point {
            x: crate::overview::scale(self.x, numerator, denominator),
            y: crate::overview::scale(self.y, numerator, denominator),
        }
    }
}

impl Vector for Size {
    open spec fn from_vector(vector: (i32, i32)) -> Size {
        Size { w: vector.0, h: vector.1 }
    }

    fn min(&self, other: Self) -> (smaller: Self) {
        Size {
            w: if self.w <= other.w { self.w } else { other.w },
            h: if self.h <= other.h { self.h } else { other.h },
        }
    }

    fn max(&self, other: Self) -> (bigger: Self) {
        Size {
            w: if self.w >= other.w { self.w } else { other.w },
            h: if self.h >= other.h { self.h } else { other.h },
        }
    }

    fn sub(&self, other: Self) -> (difference: Self) {
        Size { w: saturating_sub(self.w, other.w), h: saturating_sub(self.h, other.h) }
    }

    fn scale(&self, numerator: i64, denominator: i64) -> (scaled: Self) {
        Size {
            w: crate::overview::scale(self.w, numerator, denominator),
            h: crate::overview::scale(self.h, numerator, denominator),
        }
    }
}

/// `rect` if it covers any area.
pub open spec fn non_empty(rect: Rectangle) -> Seq<Rectangle> {
    if rect.spec_is_empty() {
        Seq::empty()
    } else {
        seq![rect]
    }
}

/// What is left of `rect` once the area of `sub_rect` is taken away.
///
/// A rectangle that does not touch the area is left whole, one inside it
/// is gone. Of any other the parts around the shared area are left, as far
/// as they cover any area: the strip above it over the full width, the
/// parts to its left and to its right over its height, and the strip below
/// it over the full width.
pub open spec fn remaining(rect: Rectangle, sub_rect: Rectangle) -> Seq<Rectangle> {
    if !rect.spec_overlaps(sub_rect) {
        seq![rect]
    } else if sub_rect.spec_contains_rect(rect) {
        Seq::empty()
    } else {
        let overlap = rect.spec_intersection(sub_rect).unwrap();
        let right = clamp_i32(overlap.loc.x + overlap.size.w);
        let bottom = clamp_i32(overlap.loc.y + overlap.size.h);
        non_empty(
            Rectangle {
                loc: rect.loc,
                size: Size { w: rect.size.w, h: clamp_i32(overlap.loc.y - rect.loc.y) },
            },
        ) + non_empty(
            Rectangle {
                loc: Point { x: rect.loc.x, y: overlap.loc.y },
                size: Size { w: clamp_i32(overlap.loc.x - rect.loc.x), h: overlap.size.h },
            },
        ) + non_empty(
            Rectangle {
                loc: Point { x: right, y: overlap.loc.y },
                size: Size {
                    w: clamp_i32(clamp_i32(rect.loc.x + rect.size.w) - right),
                    h: overlap.size.h,
                },
            },
        ) + non_empty(
            Rectangle {
                loc: Point { x: rect.loc.x, y: bottom },
                size: Size {
                    w: rect.size.w,
                    h: clamp_i32(clamp_i32(rect.loc.y + rect.size.h) - bottom),
                },
            },
        )
    }
}

/// What is left of `rects`, one after the other, once the area of
/// `sub_rect` is taken away.
pub open spec fn remaining_all(rects: Seq<Rectangle>, sub_rect: Rectangle) -> Seq<Rectangle>
    decreases rects.len(),
{
    if rects.len() == 0 {
        Seq::empty()
    } else {
        remaining_all(rects.drop_last(), sub_rect) + remaining(rects.last(), sub_rect)
    }
}

/// Whether `point` lies in one of `rects`.
pub open spec fn covered(rects: Seq<Rectangle>, point: Point) -> bool {
    exists|i: int| 0 <= i < rects.len() && (#[trigger] rects[i]).spec_contains(point)
}

/// Adds `rect` to `rects` if it covers any area.
fn push_nonempty(rects: &mut Vec<Rectangle>, rect: Rectangle)
    ensures
        final(rects)@ == old(rects)@ + non_empty(rect),
{
    if !rect.is_empty() {
        rects.push(rect);
        assert(rects@ =~= old(rects)@ + non_empty(rect));
    } else {
        assert(rects@ =~= old(rects)@ + non_empty(rect));
    }
}

/// Subtract a rect from all rectangles in a vec.
pub trait SubtractRectFast {
    /// The rectangles that the value holds.
    spec fn rects(&self) -> Seq<Rectangle>;

    /// Subtract a rectangle.
    fn subtract_rect(&mut self, sub_rect: Rectangle)
        ensures
            final(self).rects() == remaining_all(old(self).rects(), sub_rect),
    ;
}

impl SubtractRectFast for Vec<Rectangle> {
    open spec fn rects(&self) -> Seq<Rectangle> {
        self@
    }

    fn subtract_rect(&mut self, sub_rect: Rectangle) {
        let initial_len: usize = self.len();
        let mut left: Vec<Rectangle> = Vec::new();
        let mut i: usize = 0;
        assert(self@.take(0) =~= Seq::<Rectangle>::empty());

        // Add all subtraction result rectangles.
        while i < initial_len
            invariant
                i <= initial_len,
                initial_len == self@.len(),
                self@ == old(self)@,
                left@ == remaining_all(self@.take(i as int), sub_rect),
            decreases initial_len - i,
        {
            let rect = self[i];
            let ghost before = left@;
            proof {
                assert(self@.take(i + 1).drop_last() =~= self@.take(i as int));
                assert(self@.take(i + 1).last() == rect);
            }
            i += 1;

            // Re-add the rect as-is if nothing can be subtracted.
            if !rect.overlaps(sub_rect) {
                left.push(rect);
                assert(left@ =~= before + remaining(rect, sub_rect));
                continue ;
            }
            // Remove rect if it is contained completely.
            if sub_rect.contains_rect(rect) {
                assert(left@ =~= before + remaining(rect, sub_rect));
                continue ;
            }
            // Calculate intersection of the two rectangles.
            let overlap = match rect.intersection(sub_rect) {
                Some(overlap) => overlap,
                None => {
                    continue ;
                },
            };

            // Push all the resulting non-empty rectangles.
            let top_size = Size { w: rect.size.w, h: saturating_sub(overlap.loc.y, rect.loc.y) };
            push_nonempty(&mut left, Rectangle::new(rect.loc, top_size));

            let left_loc = Point { x: rect.loc.x, y: overlap.loc.y };
            let left_size = Size { w: saturating_sub(overlap.loc.x, rect.loc.x), h: overlap.size.h };
            push_nonempty(&mut left, Rectangle::new(left_loc, left_size));

            let right_loc = Point {
                x: saturating_add(overlap.loc.x, overlap.size.w),
                y: overlap.loc.y,
            };
            let right_width = saturating_sub(saturating_add(rect.loc.x, rect.size.w), right_loc.x);
            push_nonempty(
                &mut left,
                Rectangle::new(right_loc, Size { w: right_width, h: overlap.size.h }),
            );

            let bottom_loc = Point {
                x: rect.loc.x,
                y: saturating_add(overlap.loc.y, overlap.size.h),
            };
            let bottom_height = saturating_sub(saturating_add(rect.loc.y, rect.size.h), bottom_loc.y);
            push_nonempty(
                &mut left,
                Rectangle::new(bottom_loc, Size { w: rect.size.w, h: bottom_height }),
            );
            assert(left@ =~= before + remaining(rect, sub_rect));
        }
        assert(self@.take(initial_len as int) =~= self@);
        *self = left;
    }
}

/// Why a matrix could not be made.
#[derive(Debug, Clone, Copy, PartialEq, Eq, Structural)]
pub enum MatrixError {
    /// The matrix was to be made of this many elements rather than nine.
    Size(usize),
    /// The element with this index is no number.
    Element(usize),
}

/// A matrix of three rows and three columns, stored row by row.
#[derive(Debug, PartialEq, Eq)]
pub struct Matrix3x3<T: Copy> {
    storage: Vec<T>,
}

impl<T: Copy> Clone for Matrix3x3<T> {
    fn clone(&self) -> (copy: Self)
        ensures
            copy@ == self@,
    {
        proof {
            use_type_invariant(self);
        }
        let mut storage: Vec<T> = Vec::new();
        let mut i: usize = 0;
        while i < 9
            invariant
                i <= 9,
                self.storage@.len() == 9,
                storage@ == self.storage@.take(i as int),
            decreases 9 - i,
        {
            storage.push(self.storage[i]);
            assert(self.storage@.take(i + 1) =~= self.storage@.take(i as int).push(
                self.storage@[i as int],
            ));
            i += 1;
        }
        assert(self.storage@.take(9) =~= self.storage@);
        Matrix3x3 { storage }
    }
}

impl<T: Copy> View for Matrix3x3<T> {
    type V = Seq<T>;

    closed spec fn view(&self) -> Seq<T> {
        self.storage@
    }
}

impl<T: Copy> Matrix3x3<T> {
    #[verifier::type_invariant]
    spec fn complete(self) -> bool {
        self.storage@.len() == 9
    }

    /// Makes a matrix of nine elements, given row by row.
    pub fn try_from(storage: Vec<T>) -> (matrix: Result<Self, MatrixError>)
        ensures
            match matrix {
                Ok(matrix) => storage@.len() == 9 && matrix@ == storage@,
                Err(error) => storage@.len() != 9 && error == MatrixError::Size(storage.len()),
            },
    {
        if storage.len() == 9 {
            Ok(Self { storage })
        } else {
            Err(MatrixError::Size(storage.len()))
        }
    }

    /// The nine elements, row by row.
    pub fn storage(&self) -> (storage: &Vec<T>)
        ensures
            storage@ == self@,
            storage@.len() == 9,
    {
        proof {
            use_type_invariant(self);
        }
        &self.storage
    }

    /// The element in row `row` and column `column`.
    pub fn get(&self, row: usize, column: usize) -> (element: T)
        requires
            row < 3,
            column < 3,
        ensures
            element == self@[row * 3 + column],
    {
        proof {
            use_type_invariant(self);
        }
        self.storage[row * 3 + column]
    }
}

/// The first three of `pieces`, or all if there are fewer.
pub open spec fn first_three(pieces: Seq<Seq<char>>) -> Seq<Seq<char>> {
    if pieces.len() > 3 {
        pieces.take(3)
    } else {
        pieces
    }
}

/// The texts of the elements that are read from one row of a matrix: the
/// first three of the pieces between commas.
pub open spec fn row_elements(row: Seq<char>) -> Seq<Seq<char>> {
    first_three(split(row, ','))
}

/// The texts of the elements that are read from a matrix in text: those of
/// the first three of the rows between semicolons.
pub open spec fn matrix_elements(text: Seq<char>) -> Seq<Seq<char>> {
    let rows = first_three(split(text, ';'));
    row_elements(rows[0]) + (if rows.len() > 1 {
        row_elements(rows[1])
    } else {
        Seq::empty()
    }) + (if rows.len() > 2 {
        row_elements(rows[2])
    } else {
        Seq::empty()
    })
}

/// The number that an element of a matrix in text spells, white space
/// around it aside.
pub open spec fn element_value(element: Seq<char>) -> Option<i32> {
    parsed_i32(trimmed(element))
}

/// The texts of the elements that are read from a matrix in text, each
/// without the white space around it.
pub open spec fn matrix_texts(text: Seq<char>) -> Seq<Seq<char>> {
    Seq::new(matrix_elements(text).len(), |i: int| trimmed(matrix_elements(text)[i]))
}

/// The texts of the elements that are read from one row of a matrix, each
/// without the white space around it.
pub open spec fn row_texts(row: Seq<char>) -> Seq<Seq<char>> {
    Seq::new(row_elements(row).len(), |i: int| trimmed(row_elements(row)[i]))
}

/// Whether `values` are the numbers that `elements` spell, one for one.
pub open spec fn spelled_by(values: Seq<i32>, elements: Seq<Seq<char>>) -> bool {
    &&& values.len() == elements.len()
    &&& forall|i: int|
        0 <= i < elements.len() ==> element_value(#[trigger] elements[i]) == Some(values[i])
}

/// Adds the texts of the elements of one row to `found`.
fn read_row(row: &Vec<char>, found: &mut Vec<Vec<char>>)
    ensures
        texts(final(found)@) == texts(old(found)@) + row_texts(row@),
{
    let pieces = split_at(row, ',');
    let count: usize = if pieces.len() > 3 { 3 } else { pieces.len() };
    let ghost elements = row_elements(row@);
    assert(elements.len() == count);
    assert forall|i: int| 0 <= i < count implies elements[i] == pieces@[i]@ by {
        assert(texts(pieces@)[i] == pieces@[i]@);
    }
    let mut i: usize = 0;
    assert(texts(found@) =~= texts(old(found)@) + row_texts(row@).take(0));
    while i < count
        invariant
            i <= count,
            elements == row_elements(row@),
            count == elements.len(),
            count <= pieces@.len(),
            forall|j: int| 0 <= j < count ==> elements[j] == pieces@[j]@,
            texts(found@) == texts(old(found)@) + row_texts(row@).take(i as int),
        decreases count - i,
    {
        let text = trim(&pieces[i]);
        let ghost before = texts(found@);
        found.push(text);
        assert(texts(found@) =~= before.push(text@));
        assert(row_texts(row@).take(i + 1) =~= row_texts(row@).take(i as int).push(text@));
        assert(texts(found@) =~= texts(old(found)@) + row_texts(row@).take(i + 1));
        i += 1;
    }
    assert(row_texts(row@).take(count as int) =~= row_texts(row@));
}

/// Reads the texts of the elements of a matrix from text: of the first
/// three rows between semicolons the first three elements between commas,
/// each without the white space around it.
///
/// The expected format is "0, 0, 0; 0, 0, 0; 0, 0, 0". What the elements
/// spell is left to the caller.
pub fn element_texts(s: &str) -> (found: Vec<Vec<char>>)
    ensures
        texts(found@) == matrix_texts(s@),
{
    let chars = chars_of(s);
    let rows = split_at(&chars, ';');
    let ghost lines = first_three(split(s@, ';'));
    assert forall|i: int| 0 <= i < lines.len() implies lines[i] == rows@[i]@ by {
        assert(texts(rows@)[i] == rows@[i]@);
    }
    let mut found: Vec<Vec<char>> = Vec::new();
    let count: usize = if rows.len() > 3 { 3 } else { rows.len() };
    let mut i: usize = 0;
    assert(texts(found@) =~= Seq::<Seq<char>>::empty());
    while i < count
        invariant
            i <= count,
            1 <= count <= 3,
            count == lines.len(),
            count <= rows@.len(),
            forall|j: int| 0 <= j < count ==> lines[j] == rows@[j]@,
            lines == first_three(split(s@, ';')),
            texts(found@) == if i == 0 {
                Seq::<Seq<char>>::empty()
            } else if i == 1 {
                row_texts(lines[0])
            } else if i == 2 {
                row_texts(lines[0]) + row_texts(lines[1])
            } else {
                row_texts(lines[0]) + row_texts(lines[1]) + row_texts(lines[2])
            },
        decreases count - i,
    {
        let ghost before = texts(found@);
        read_row(&rows[i], &mut found);
        assert(texts(found@) == before + row_texts(lines[i as int]));
        assert(Seq::<Seq<char>>::empty() + row_texts(lines[0]) =~= row_texts(lines[0]));
        i += 1;
    }
    assert(texts(found@) =~= matrix_texts(s@));
    found
}

impl Matrix3x3<i32> {
    /// Reads a matrix of integers from text.
    ///
    /// The expected format is "0, 0, 0; 0, 0, 0; 0, 0, 0". Of the text, the
    /// first three rows between semicolons count, and of each row the first
    /// three elements between commas. The first element that is no number
    /// is an error, else any number of elements but nine.
    pub fn from_str(s: &str) -> (matrix: Result<Self, MatrixError>)
        ensures
            match matrix {
                Ok(matrix) => matrix@.len() == 9 && spelled_by(matrix@, matrix_elements(s@)),
                Err(MatrixError::Element(index)) => {
                    let elements = matrix_elements(s@);
                    &&& index < elements.len()
                    &&& element_value(elements[index as int]).is_none()
                    &&& forall|i: int|
                        0 <= i < index ==> element_value(#[trigger] elements[i]).is_some()
                },
                Err(MatrixError::Size(count)) => {
                    let elements = matrix_elements(s@);
                    &&& count == elements.len()
                    &&& count != 9
                    &&& forall|i: int|
                        0 <= i < elements.len() ==> element_value(#[trigger] elements[i]).is_some()
                },
            },
    {
        let found = element_texts(s);
        let ghost elements = matrix_elements(s@);
        assert(texts(found@).len() == elements.len());
        let mut values: Vec<i32> = Vec::new();
        let mut i: usize = 0;
        while i < found.len()
            invariant
                i <= found@.len(),
                elements == matrix_elements(s@),
                texts(found@) == matrix_texts(s@),
                found@.len() == elements.len(),
                values@.len() == i,
                forall|j: int| 0 <= j < i ==> element_value(#[trigger] elements[j]) == Some(values@[j]),
            decreases found@.len() - i,
        {
            assert(texts(found@)[i as int] == found@[i as int]@);
            assert(matrix_texts(s@)[i as int] == trimmed(elements[i as int]));
            match parse_i32(&found[i]) {
                Some(value) => values.push(value),
                None => {
                    return Err(MatrixError::Element(i));
                },
            }
            i += 1;
        }
        Self::try_from(values)
    }
}

} // verus!
