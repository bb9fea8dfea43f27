//! wlr-screencopy protocol.
//!
//! A client asks for a copy of the output or of a region of it. What is
//! decided here is which part of the frame buffer that is, and which
//! buffer the client has to bring for it.

use vstd::prelude::*;
use crate::geometry::{non_negative_i32, Point, Rectangle, Size};
use crate::output::Output;

verus! {

/// A request of a client to the screencopy manager.
#[derive(Clone, Copy, Debug, PartialEq, Eq, Structural)]
pub enum Request {
    /// Copy all of the output.
    CaptureOutput {
        /// Whether the cursor is to be in the copy; zero means no.
        overlay_cursor: i32,
    },
    /// Copy the region of the output that is given in logical coordinates.
    CaptureOutputRegion {
        /// Whether the cursor is to be in the copy; zero means no.
        overlay_cursor: i32,
        x: i32,
        y: i32,
        width: i32,
        height: i32,
    },
    /// Release the manager.
    Destroy,
}

/// What is copied for a frame.
#[derive(Clone, Copy, Debug, PartialEq, Eq, Structural)]
pub struct ScreencopyFrameState {
    /// Whether the cursor is to be in the copy.
    pub overlay_cursor: bool,
    /// The part of the frame buffer that is copied.
    pub rect: Rectangle,
}

/// The shared memory buffer that a client has to bring for a frame.
#[derive(Clone, Copy, Debug, PartialEq, Eq, Structural)]
pub struct BufferParameters {
    /// Width in pixels.
    pub width: u32,
    /// Height in pixels.
    pub height: u32,
    /// Bytes from one row to the next: four for each pixel of a row.
    pub stride: u32,
}

/// State of the screencopy manager.
#[derive(Clone, Copy, Debug)]
pub struct ScreencopyManagerState;

/// The stride of a row of `width` pixels of four bytes; a stride that the
/// type does not hold stops at its bound.
pub open spec fn stride_of(width: u32) -> u32 {
    if width * 4 > u32::MAX {
        u32::MAX
    } else {
        (width * 4) as u32
    }
}

impl ScreencopyManagerState {
    pub fn new() -> (state: Self) {
        ScreencopyManagerState
    }

    /// The part of the frame buffer that a request is about.
    ///
    /// A request for the output is about all of the frame buffer. A region
    /// is rotated with the output, scaled to pixels of the display and cut
    /// to the frame buffer; of a region beside the output nothing is left.
    pub open spec fn region(output: &Output, request: Request) -> Option<Rectangle> {
        let frame = Rectangle { loc: Point { x: 0, y: 0 }, size: output.spec_physical_resolution() };
        match request {
            Request::CaptureOutput { .. } => Some(frame),
            Request::CaptureOutputRegion { x, y, width, height, .. } => {
                let rect = Rectangle { loc: Point { x, y }, size: Size { w: width, h: height } };
                let physical = output.orientation.spec_output_transform().spec_transform_rect_in(
                    rect,
                    output.spec_size(),
                ).spec_to_physical(output.spec_scale());
                match physical.spec_intersection(frame) {
                    Some(clamped) => Some(clamped),
                    None => Some(
                        Rectangle { loc: Point { x: 0, y: 0 }, size: Size { w: 0, h: 0 } },
                    ),
                }
            },
            Request::Destroy => None,
        }
    }

    /// The buffer that holds a copy of `rect`.
    pub open spec fn buffer_for(rect: Rectangle) -> BufferParameters {
        BufferParameters {
            width: non_negative_i32(rect.size.w) as u32,
            height: non_negative_i32(rect.size.h) as u32,
            stride: stride_of(non_negative_i32(rect.size.w) as u32),
        }
    }

    /// Handles a request of a client: tells what is copied for the frame
    /// and which buffer the client has to bring, unless the request is the
    /// release of the manager.
    pub fn request(&self, output: &Output, request: Request) -> (frame: Option<
        (ScreencopyFrameState, BufferParameters),
    >)
        ensures
            match (frame, ScreencopyManagerState::region(output, request)) {
                (Some((state, buffer)), Some(rect)) => {
                    &&& state.rect == rect
                    &&& buffer == ScreencopyManagerState::buffer_for(rect)
                    &&& state.overlay_cursor == match request {
                        Request::CaptureOutput { overlay_cursor } => overlay_cursor != 0,
                        Request::CaptureOutputRegion { overlay_cursor, .. } => overlay_cursor != 0,
                        Request::Destroy => false,
                    }
                },
                (None, None) => true,
                _ => false,
            },
    {
        let whole = Rectangle { loc: Point { x: 0, y: 0 }, size: output.physical_resolution() };
        let (overlay_cursor, rect) = match request {
            Request::CaptureOutput { overlay_cursor } => (overlay_cursor, whole),
            Request::CaptureOutputRegion { overlay_cursor, x, y, width, height } => {
                let rect = Rectangle { loc: Point { x, y }, size: Size { w: width, h: height } };

                // Turn the logical rect into physical framebuffer coordinates.
                let output_transform = output.orientation().output_transform();
                let rotated_rect = output_transform.transform_rect_in(rect, output.size());
                let physical_rect = rotated_rect.to_physical(output.scale());

                // Clamp captured region to the output.
                let clamped_rect = match physical_rect.intersection(whole) {
                    Some(clamped) => clamped,
                    None => Rectangle { loc: Point { x: 0, y: 0 }, size: Size { w: 0, h: 0 } },
                };
                (overlay_cursor, clamped_rect)
            },
            Request::Destroy => {
                return None;
            },
        };

        // Create the frame.
        let state = ScreencopyFrameState { overlay_cursor: overlay_cursor != 0, rect };

        // Send desired SHM buffer parameters.
        let width: u32 = if rect.size.w > 0 { rect.size.w as u32 } else { 0 };
        let height: u32 = if rect.size.h > 0 { rect.size.h as u32 } else { 0 };
        let stride: u32 = if width as u64 * 4 > u32::MAX as u64 {
            u32::MAX
        } else {
            (width as u64 * 4) as u32
        };
        Some((state, BufferParameters { width, height, stride }))
    }
}

} // verus!
