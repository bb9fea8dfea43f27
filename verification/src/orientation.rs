//! Device orientation and the transforms that follow from it.

use vstd::prelude::*;
use crate::geometry::{clamp_i32, saturate, Point, Rectangle, Size};
use crate::text::{chars_of, lowercase, spells, to_lowercase};

verus! {

/// A name that stands for nothing.
#[derive(Debug, Clone, PartialEq, Eq)]
pub struct UnknownName {
    /// The name as it was given.
    pub got: String,
}

/// Device orientation.
#[derive(Clone, Copy, Debug, PartialEq, Eq, Structural)]
pub enum Orientation {
    /// Portrait mode.
    Portrait,
    /// Inverse portrait mode.
    InversePortrait,
    /// Landscape mode.
    Landscape,
    /// Inverse landscape mode.
    InverseLandscape,
}

/// Rotation applied to rendered content, counter-clockwise in degrees.
#[derive(Clone, Copy, Debug, PartialEq, Eq, Structural)]
pub enum Transform {
    Normal,
    Rotate90,
    Rotate180,
    Rotate270,
}

impl Transform {
    /// The extent of something of extent `size` once it is rotated: a
    /// quarter turn trades its sides.
    pub open spec fn spec_transform_size(&self, size: Size) -> Size {
        match *self {
            Transform::Rotate90 | Transform::Rotate270 => Size { w: size.h, h: size.w },
            _ => size,
        }
    }

    /// Transformed size after applying this transformation.
    #[verifier::when_used_as_spec(spec_transform_size)]
    pub fn transform_size(&self, size: Size) -> (rotated: Size)
        ensures
            rotated == self.spec_transform_size(size),
    {
        match self {
            Transform::Rotate90 | Transform::Rotate270 => Size { w: size.h, h: size.w },
            _ => size,
        }
    }

    /// Where `rect` lies in an area of extent `area` once the area is
    /// rotated; coordinates that the type does not hold stop at its bounds.
    pub open spec fn spec_transform_rect_in(&self, rect: Rectangle, area: Size) -> Rectangle {
        Rectangle {
            loc: match *self {
                Transform::Normal => rect.loc,
                Transform::Rotate90 => Point {
                    x: clamp_i32(area.h - rect.loc.y - rect.size.h),
                    y: rect.loc.x,
                },
                Transform::Rotate180 => Point {
                    x: clamp_i32(area.w - rect.loc.x - rect.size.w),
                    y: clamp_i32(area.h - rect.loc.y - rect.size.h),
                },
                Transform::Rotate270 => Point {
                    x: rect.loc.y,
                    y: clamp_i32(area.w - rect.loc.x - rect.size.w),
                },
            },
            size: self.spec_transform_size(rect.size),
        }
    }

    /// Transforms a rectangle inside an area of a given size by applying
    /// this transformation.
    #[verifier::when_used_as_spec(spec_transform_rect_in)]
    pub fn transform_rect_in(&self, rect: Rectangle, area: Size) -> (rotated: Rectangle)
        ensures
            rotated == self.spec_transform_rect_in(rect, area),
    {
        let right: i32 = saturate(area.w as i64 - rect.loc.x as i64 - rect.size.w as i64);
        let bottom: i32 = saturate(area.h as i64 - rect.loc.y as i64 - rect.size.h as i64);
        let loc = match self {
            Transform::Normal => rect.loc,
            Transform::Rotate90 => Point { x: bottom, y: rect.loc.x },
            Transform::Rotate180 => Point { x: right, y: bottom },
            Transform::Rotate270 => Point { x: rect.loc.y, y: right },
        };
        Rectangle { loc, size: self.transform_size(rect.size) }
    }
}

impl Default for Orientation {
    fn default() -> (orientation: Self)
        ensures
            orientation == Orientation::Portrait,
    {
        Orientation::Portrait
    }
}

impl Orientation {
    /// Whether the long side of the device is horizontal.
    pub open spec fn spec_is_landscape(self) -> bool {
        self == Orientation::Landscape || self == Orientation::InverseLandscape
    }

    #[verifier::when_used_as_spec(spec_is_landscape)]
    pub fn is_landscape(self) -> (landscape: bool)
        ensures
            landscape == self.spec_is_landscape(),
    {
        match self {
            Orientation::Landscape | Orientation::InverseLandscape => true,
            Orientation::Portrait | Orientation::InversePortrait => false,
        }
    }

    /// Output rendering transform for this orientation.
    pub open spec fn spec_output_transform(&self) -> Transform {
        match self {
            Orientation::Portrait => Transform::Normal,
            Orientation::InversePortrait => Transform::Rotate180,
            Orientation::Landscape => Transform::Rotate90,
            Orientation::InverseLandscape => Transform::Rotate270,
        }
    }

    /// Output rendering transform for this orientation.
    #[verifier::when_used_as_spec(spec_output_transform)]
    pub fn output_transform(&self) -> (transform: Transform)
        ensures
            transform == self.spec_output_transform(),
    {
        match self {
            Orientation::Portrait => Transform::Normal,
            Orientation::InversePortrait => Transform::Rotate180,
            Orientation::Landscape => Transform::Rotate90,
            Orientation::InverseLandscape => Transform::Rotate270,
        }
    }

    /// Surface rendering transform for this orientation: the rotation that
    /// undoes the output transform.
    pub open spec fn spec_surface_transform(&self) -> Transform {
        match self {
            Orientation::Portrait => Transform::Normal,
            Orientation::InversePortrait => Transform::Rotate180,
            Orientation::Landscape => Transform::Rotate270,
            Orientation::InverseLandscape => Transform::Rotate90,
        }
    }

    /// Surface rendering transform for this orientation.
    #[verifier::when_used_as_spec(spec_surface_transform)]
    pub fn surface_transform(&self) -> (transform: Transform)
        ensures
            transform == self.spec_surface_transform(),
    {
        match self {
            Orientation::Portrait => Transform::Normal,
            Orientation::InversePortrait => Transform::Rotate180,
            Orientation::Landscape => Transform::Rotate270,
            Orientation::InverseLandscape => Transform::Rotate90,
        }
    }

    /// The orientation that goes by `name`.
    pub open spec fn named(name: Seq<char>) -> Option<Orientation> {
        if name == "portrait"@ {
            Some(Orientation::Portrait)
        } else if name == "inverse-portrait"@ {
            Some(Orientation::InversePortrait)
        } else if name == "landscape"@ {
            Some(Orientation::Landscape)
        } else if name == "inverse-landscape"@ {
            Some(Orientation::InverseLandscape)
        } else {
            None
        }
    }

    /// The orientation that goes by `name`, which is taken as it is
    /// written.
    pub fn from_name(name: &str) -> (orientation: Option<Self>)
        ensures
            orientation == Orientation::named(name@),
    {
        let chars = chars_of(name);
        if spells(&chars, "portrait") {
            Some(Orientation::Portrait)
        } else if spells(&chars, "inverse-portrait") {
            Some(Orientation::InversePortrait)
        } else if spells(&chars, "landscape") {
            Some(Orientation::Landscape)
        } else if spells(&chars, "inverse-landscape") {
            Some(Orientation::InverseLandscape)
        } else {
            None
        }
    }

    /// The orientation that goes by the name `s`, in whichever case it is
    /// written.
    pub fn from_str(s: &str) -> (orientation: Result<Self, UnknownName>)
        ensures
            match orientation {
                Ok(orientation) => Orientation::named(lowercase(s@)) == Some(orientation),
                Err(error) => Orientation::named(lowercase(s@)).is_none() && error.got@ == s@,
            },
    {
        let lowered = to_lowercase(s);
        match Orientation::from_name(lowered.as_str()) {
            Some(orientation) => Ok(orientation),
            None => Err(UnknownName { got: s.to_owned() }),
        }
    }
}

impl std::str::FromStr for Orientation {
    type Err = UnknownName;

    fn from_str(s: &str) -> (orientation: Result<Self, UnknownName>)
        ensures
            match orientation {
                Ok(orientation) => Orientation::named(lowercase(s@)) == Some(orientation),
                Err(error) => Orientation::named(lowercase(s@)).is_none() && error.got@ == s@,
            },
    {
        Orientation::from_str(s)
    }
}

} // verus!
