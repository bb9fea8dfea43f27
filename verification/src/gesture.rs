//! Where on the output a gesture starts and ends.

use vstd::prelude::*;
use crate::geometry::{Point, Size};
use crate::orientation::UnknownName;
use crate::text::{chars_of, lowercase, spells, to_lowercase};

verus! {

/// Gesture start/end sectors.
#[derive(Clone, Copy, Debug, PartialEq, Eq, Structural)]
pub enum GestureSector {
    TopLeft,
    TopCenter,
    TopRight,
    MiddleLeft,
    MiddleCenter,
    MiddleRight,
    BottomLeft,
    BottomCenter,
    BottomRight,
}

/// The third of a side of length `extent` that `coordinate` lies in.
///
/// Coordinates off the side count for the nearest third. On a side without
/// length a coordinate beyond its start counts for the last third.
pub open spec fn third(coordinate: int, extent: int) -> int {
    if coordinate <= 0 || extent < 0 {
        0
    } else if extent == 0 || 3 * coordinate / extent >= 2 {
        2
    } else {
        3 * coordinate / extent
    }
}

/// Finds the third of a side that a coordinate lies in.
fn third_of(coordinate: i32, extent: i32) -> (index: u8)
    ensures
        index == third(coordinate as int, extent as int),
        index <= 2,
{
    if coordinate <= 0 || extent < 0 {
        0
    } else if extent == 0 {
        2
    } else {
        let index: i64 = 3 * coordinate as i64 / extent as i64;
        if index >= 2 {
            2
        } else {
            index as u8
        }
    }
}

impl GestureSector {
    /// The sector in column `column` and row `row`, both counted from
    /// zero.
    pub open spec fn at(column: int, row: int) -> GestureSector {
        if row == 0 {
            if column == 0 {
                GestureSector::TopLeft
            } else if column == 1 {
                GestureSector::TopCenter
            } else {
                GestureSector::TopRight
            }
        } else if row == 1 {
            if column == 0 {
                GestureSector::MiddleLeft
            } else if column == 1 {
                GestureSector::MiddleCenter
            } else {
                GestureSector::MiddleRight
            }
        } else {
            if column == 0 {
                GestureSector::BottomLeft
            } else if column == 1 {
                GestureSector::BottomCenter
            } else {
                GestureSector::BottomRight
            }
        }
    }

    /// Get output sector a point lies in: the output is divided into three
    /// columns and three rows of equal size.
    pub fn from_point(output_size: Size, point: Point) -> (sector: Self)
        ensures
            sector == GestureSector::at(
                third(point.x as int, output_size.w as int),
                third(point.y as int, output_size.h as int),
            ),
    {
        // Map point in the range of 0..=2 for X and Y.
        let x_mult = third_of(point.x, output_size.w);
        let y_mult = third_of(point.y, output_size.h);
        if y_mult == 0 {
            if x_mult == 0 {
                GestureSector::TopLeft
            } else if x_mult == 1 {
                GestureSector::TopCenter
            } else {
                GestureSector::TopRight
            }
        } else if y_mult == 1 {
            if x_mult == 0 {
                GestureSector::MiddleLeft
            } else if x_mult == 1 {
                GestureSector::MiddleCenter
            } else {
                GestureSector::MiddleRight
            }
        } else {
            if x_mult == 0 {
                GestureSector::BottomLeft
            } else if x_mult == 1 {
                GestureSector::BottomCenter
            } else {
                GestureSector::BottomRight
            }
        }
    }

    /// The sector that goes by `name`, in full or by its two letters.
    pub open spec fn named(name: Seq<char>) -> Option<GestureSector> {
        if name == "topleft"@ || name == "tl"@ {
            Some(GestureSector::TopLeft)
        } else if name == "topcenter"@ || name == "tc"@ {
            Some(GestureSector::TopCenter)
        } else if name == "topright"@ || name == "tr"@ {
            Some(GestureSector::TopRight)
        } else if name == "middleleft"@ || name == "ml"@ {
            Some(GestureSector::MiddleLeft)
        } else if name == "middlecenter"@ || name == "mc"@ {
            Some(GestureSector::MiddleCenter)
        } else if name == "middleright"@ || name == "mr"@ {
            Some(GestureSector::MiddleRight)
        } else if name == "bottomleft"@ || name == "bl"@ {
            Some(GestureSector::BottomLeft)
        } else if name == "bottomcenter"@ || name == "bc"@ {
            Some(GestureSector::BottomCenter)
        } else if name == "bottomright"@ || name == "br"@ {
            Some(GestureSector::BottomRight)
        } else {
            None
        }
    }

    /// The sector that goes by `name`, which is taken as it is written.
    pub fn from_name(name: &str) -> (sector: Option<Self>)
        ensures
            sector == GestureSector::named(name@),
    {
        let chars = chars_of(name);
        if spells(&chars, "topleft") || spells(&chars, "tl") {
            Some(GestureSector::TopLeft)
        } else if spells(&chars, "topcenter") || spells(&chars, "tc") {
            Some(GestureSector::TopCenter)
        } else if spells(&chars, "topright") || spells(&chars, "tr") {
            Some(GestureSector::TopRight)
        } else if spells(&chars, "middleleft") || spells(&chars, "ml") {
            Some(GestureSector::MiddleLeft)
        } else if spells(&chars, "middlecenter") || spells(&chars, "mc") {
            Some(GestureSector::MiddleCenter)
        } else if spells(&chars, "middleright") || spells(&chars, "mr") {
            Some(GestureSector::MiddleRight)
        } else if spells(&chars, "bottomleft") || spells(&chars, "bl") {
            Some(GestureSector::BottomLeft)
        } else if spells(&chars, "bottomcenter") || spells(&chars, "bc") {
            Some(GestureSector::BottomCenter)
        } else if spells(&chars, "bottomright") || spells(&chars, "br") {
            Some(GestureSector::BottomRight)
        } else {
            None
        }
    }

    /// The sector that goes by the name `s`, in whichever case it is
    /// written.
    pub fn from_str(s: &str) -> (sector: Result<Self, UnknownName>)
        ensures
            match sector {
                Ok(sector) => GestureSector::named(lowercase(s@)) == Some(sector),
                Err(error) => GestureSector::named(lowercase(s@)).is_none() && error.got@ == s@,
            },
    {
        let lowered = to_lowercase(s);
        match GestureSector::from_name(lowered.as_str()) {
            Some(sector) => Ok(sector),
            None => Err(UnknownName { got: s.to_owned() }),
        }
    }
}

impl std::str::FromStr for GestureSector {
    type Err = UnknownName;

    fn from_str(s: &str) -> (sector: Result<Self, UnknownName>)
        ensures
            match sector {
                Ok(sector) => GestureSector::named(lowercase(s@)) == Some(sector),
                Err(error) => GestureSector::named(lowercase(s@)).is_none() && error.got@ == s@,
            },
    {
        GestureSector::from_str(s)
    }
}

} // verus!
