//! What is drawn, in which order and where.

use vstd::prelude::*;
use crate::geometry::{clamp_i32, max, min, saturate, Point, Rectangle, Size};
use crate::output::Output;
use crate::overview::{scale, scaled, truncated, FG_OVERVIEW_SCALE, SCALE_UNIT};
use crate::window::{Window, WindowId};

verus! {

/// One thing that is drawn for a frame.
#[derive(Clone, Copy, Debug, PartialEq, Eq, Structural)]
pub enum Element {
    /// The handle at the bottom edge that gestures start from.
    GestureHandle {
        /// Top-left corner of the handle.
        location: Point,
    },
    /// The surfaces of a window.
    Window {
        /// Surface of the window.
        window: WindowId,
        /// Where the window is drawn; what lies beyond is cut off.
        bounds: Rectangle,
        /// Scale of the window, in parts of the scale unit.
        scale: i64,
    },
    /// An area that a dragged window can be dropped in.
    DropTarget {
        /// Extent of the area.
        bounds: Rectangle,
        /// Whether the touch is in the area.
        active: bool,
    },
}

/// Scale at which a window is drawn in its own size.
pub const FULL_SCALE: i64 = crate::overview::SCALE_UNIT;

impl Element {
    /// The element that draws `window` where it is and in its own size.
    pub open spec fn spec_plain(window: Window) -> Element {
        Element::Window { window: window.id, bounds: window.rectangle, scale: FULL_SCALE }
    }

    /// The element that draws `window` where it is and in its own size.
    #[verifier::when_used_as_spec(spec_plain)]
    pub fn plain(window: Window) -> (element: Self)
        ensures
            element == Element::spec_plain(window),
    {
        Element::Window { window: window.id, bounds: window.rectangle, scale: FULL_SCALE }
    }
}

/// Handle of a texture that the renderer holds.
pub type TextureId = u64;

/// Handle of a buffer that a client has attached to a surface.
pub type BufferId = u64;

/// Cached texture.
///
/// Includes all information necessary to render a surface's texture even
/// after the surface itself has already died.
#[derive(Clone, Copy, Debug, PartialEq, Eq, Structural)]
pub struct Texture {
    size: Size,
    location: Point,
    texture: TextureId,
    scale: i32,
}

/// Where a texture is drawn from and to.
#[derive(Clone, Copy, Debug, PartialEq, Eq, Structural)]
pub struct Blit {
    /// Texture that is drawn.
    pub texture: TextureId,
    /// Part of the texture that is drawn, in pixels of its buffer.
    pub source: Rectangle,
    /// Where it is drawn, in pixels of the display.
    pub destination: Rectangle,
}

/// What the texture holds, as far as contracts are concerned.
pub struct TextureView {
    pub size: Size,
    pub location: Point,
    pub texture: TextureId,
    pub scale: i32,
}

impl View for Texture {
    type V = TextureView;

    closed spec fn view(&self) -> TextureView {
        TextureView {
            size: self.size,
            location: self.location,
            texture: self.texture,
            scale: self.scale,
        }
    }
}

impl TextureView {
    /// Extent that a window shown at `window_scale` in `window_bounds` has
    /// in its own size; it is one pixel at least.
    pub open spec fn unscaled(window_bounds: Rectangle, window_scale: i64) -> Size {
        Size {
            w: max(
                clamp_i32(scaled(window_bounds.size.w as int, SCALE_UNIT as int, window_scale as int)) as int,
                1,
            ) as i32,
            h: max(
                clamp_i32(scaled(window_bounds.size.h as int, SCALE_UNIT as int, window_scale as int)) as int,
                1,
            ) as i32,
        }
    }

    /// Whether anything of the texture is drawn for a window that is shown
    /// at `window_scale` in `window_bounds`: the scale is positive and the
    /// texture starts within the window.
    pub open spec fn drawn(self, window_bounds: Rectangle, window_scale: i64) -> bool {
        &&& window_scale > 0
        &&& self.location.x < TextureView::unscaled(window_bounds, window_scale).w
        &&& self.location.y < TextureView::unscaled(window_bounds, window_scale).h
    }

    /// The part of the texture that lies within the window, in its own
    /// size.
    pub open spec fn source_size(self, window_bounds: Rectangle, window_scale: i64) -> Size {
        let bounds = TextureView::unscaled(window_bounds, window_scale);
        Size {
            w: min(clamp_i32(self.size.w + self.location.x) as int, bounds.w as int) as i32,
            h: min(clamp_i32(self.size.h + self.location.y) as int, bounds.h as int) as i32,
        }
    }

    /// Where the texture is drawn from and to for a window that is shown at
    /// `window_scale` in `window_bounds`.
    ///
    /// The texture is scaled first and cut to the bounds of the window
    /// then.
    pub open spec fn blit(self, output: &Output, window_bounds: Rectangle, window_scale: i64) -> Blit {
        let source = self.source_size(window_bounds, window_scale);
        Blit {
            texture: self.texture,
            source: Rectangle { loc: Point { x: 0, y: 0 }, size: source }.spec_to_physical(self.scale),
            destination: Rectangle {
                loc: Point {
                    x: clamp_i32(
                        window_bounds.loc.x + clamp_i32(
                            scaled(self.location.x as int, window_scale as int, SCALE_UNIT as int),
                        ),
                    ),
                    y: clamp_i32(
                        window_bounds.loc.y + clamp_i32(
                            scaled(self.location.y as int, window_scale as int, SCALE_UNIT as int),
                        ),
                    ),
                },
                size: Size {
                    w: min(
                        clamp_i32(scaled(source.w as int, window_scale as int, SCALE_UNIT as int)) as int,
                        window_bounds.size.w as int,
                    ) as i32,
                    h: min(
                        clamp_i32(scaled(source.h as int, window_scale as int, SCALE_UNIT as int)) as int,
                        window_bounds.size.h as int,
                    ) as i32,
                },
            }.spec_to_physical(output.spec_scale()),
        }
    }
}

impl Texture {
    pub fn new(texture: TextureId, size: Size, location: Point, scale: i32) -> (cached: Self)
        ensures
            cached@ == (TextureView { size, location, texture, scale }),
    {
        Self { size, location, texture, scale }
    }

    /// Whether a buffer of `len` bytes holds an image of `width` by
    /// `height` pixels of four bytes.
    pub fn holds(len: usize, width: i32, height: i32) -> (enough: bool)
        ensures
            enough == (width >= 0 && height >= 0 && len >= width * height * 4),
    {
        if width < 0 || height < 0 {
            return false;
        }
        assert(0 <= width * height <= 0x8000_0000 * 0x8000_0000) by (nonlinear_arith)
            requires
                0 <= width <= 0x8000_0000,
                0 <= height <= 0x8000_0000,
        ;
        len as u128 >= width as u128 * height as u128 * 4
    }

    /// Render the texture at the specified location.
    ///
    /// Using the `window_bounds` and `window_scale` parameters, it is
    /// possible to scale the texture and truncate it to be within the
    /// specified window bounds. The scaling will always take part
    /// **before** the truncation.
    pub fn draw_at(&self, output: &Output, window_bounds: Rectangle, window_scale: i64) -> (blit:
        Option<Blit>)
        ensures
            blit == if self@.drawn(window_bounds, window_scale) {
                Some(self@.blit(output, window_bounds, window_scale))
            } else {
                None
            },
    {
        if window_scale <= 0 {
            return None;
        }
        // Skip textures completely outside of the window bounds.
        let unit: i64 = SCALE_UNIT;
        let bounds_w: i32 = scale(window_bounds.size.w, unit, window_scale);
        let bounds_h: i32 = scale(window_bounds.size.h, unit, window_scale);
        let bounds = Size {
            w: if bounds_w >= 1 { bounds_w } else { 1 },
            h: if bounds_h >= 1 { bounds_h } else { 1 },
        };
        if self.location.x >= bounds.w || self.location.y >= bounds.h {
            return None;
        }
        // Truncate source size based on window bounds.
        let full = Size {
            w: saturate(self.size.w as i64 + self.location.x as i64),
            h: saturate(self.size.h as i64 + self.location.y as i64),
        };
        let src_size = Size {
            w: if full.w <= bounds.w { full.w } else { bounds.w },
            h: if full.h <= bounds.h { full.h } else { bounds.h },
        };
        let src = Rectangle { loc: Point { x: 0, y: 0 }, size: src_size };

        // Scale output size based on window scale.
        let location = Point {
            x: saturate(
                window_bounds.loc.x as i64 + scale(self.location.x, window_scale, unit) as i64,
            ),
            y: saturate(
                window_bounds.loc.y as i64 + scale(self.location.y, window_scale, unit) as i64,
            ),
        };
        let scaled_w: i32 = scale(src_size.w, window_scale, unit);
        let scaled_h: i32 = scale(src_size.h, window_scale, unit);
        let dest_size = Size {
            w: if scaled_w <= window_bounds.size.w { scaled_w } else { window_bounds.size.w },
            h: if scaled_h <= window_bounds.size.h { scaled_h } else { window_bounds.size.h },
        };
        let dest = Rectangle { loc: location, size: dest_size };
        Some(
            Blit {
                texture: self.texture,
                source: src.to_physical(self.scale),
                destination: dest.to_physical(output.scale()),
            },
        )
    }

    /// Texture dimensions.
    pub fn size(&self) -> (size: Size)
        ensures
            size == self@.size,
    {
        self.size
    }
}

/// What a client did with the buffer of a surface.
#[derive(Clone, Copy, Debug, PartialEq, Eq, Structural)]
pub enum BufferAssignment {
    /// The client attached a buffer of the given extent in pixels.
    NewBuffer { buffer: BufferId, dimensions: Size },
    /// The client removed the buffer.
    Removed,
}

/// Surface buffer cache.
#[derive(Clone, Copy, Debug, PartialEq, Eq, Structural)]
pub struct SurfaceBuffer {
    pub texture: Option<TextureId>,
    pub buffer: Option<BufferId>,
    pub scale: i32,
    pub dimensions: Size,
}

impl Default for SurfaceBuffer {
    fn default() -> (cache: Self)
        ensures
            cache == SurfaceBuffer::empty(),
    {
        Self { scale: 1, dimensions: Size { w: 0, h: 0 }, texture: None, buffer: None }
    }
}

impl SurfaceBuffer {
    /// The cache of a surface without a buffer.
    pub open spec fn empty() -> SurfaceBuffer {
        SurfaceBuffer { scale: 1, dimensions: Size { w: 0, h: 0 }, texture: None, buffer: None }
    }

    pub fn new() -> (cache: Self)
        ensures
            cache == SurfaceBuffer::empty(),
    {
        Self { scale: 1, dimensions: Size { w: 0, h: 0 }, texture: None, buffer: None }
    }

    /// Handle buffer creation/removal: a new buffer replaces the old one
    /// and makes its texture stale, a removed one leaves the cache empty.
    pub fn update_buffer(&mut self, buffer_scale: i32, assignment: BufferAssignment)
        ensures
            *final(self) == match assignment {
                BufferAssignment::NewBuffer { buffer, dimensions } => SurfaceBuffer {
                    texture: None,
                    buffer: Some(buffer),
                    scale: buffer_scale,
                    dimensions,
                },
                BufferAssignment::Removed => SurfaceBuffer::empty(),
            },
    {
        match assignment {
            BufferAssignment::NewBuffer { buffer, dimensions } => {
                self.dimensions = dimensions;
                self.scale = buffer_scale;
                self.buffer = Some(buffer);
                self.texture = None;
            },
            BufferAssignment::Removed => {
                *self = Self::new();
            },
        }
    }

    /// Extent of the surface in logical pixels: that of its buffer, divided
    /// by its scale. A scale below one counts as one.
    pub open spec fn spec_size(&self) -> Size {
        let scale = max(self.scale as int, 1);
        Size {
            w: truncated(self.dimensions.w as int, 1, scale) as i32,
            h: truncated(self.dimensions.h as int, 1, scale) as i32,
        }
    }

    /// Surface size.
    #[verifier::when_used_as_spec(spec_size)]
    pub fn size(&self) -> (size: Size)
        ensures
            size == self.spec_size(),
    {
        let scale: i64 = if self.scale > 1 { self.scale as i64 } else { 1 };
        let w: i64 = self.dimensions.w as i64;
        let h: i64 = self.dimensions.h as i64;
        Size {
            w: (if w >= 0 { w / scale } else { -(-w / scale) }) as i32,
            h: (if h >= 0 { h / scale } else { -(-h / scale) }) as i32,
        }
    }
}

/// Height of the window decoration title in the application overview with
/// a scale of one.
pub const OVERVIEW_TITLE_HEIGHT: i32 = 30;

/// Width of the window decoration border in the application overview with
/// a scale of one.
pub const OVERVIEW_BORDER_WIDTH: i32 = 1;

/// A colour with its opacity.
#[derive(Clone, Copy, Debug, PartialEq, Eq, Structural)]
pub struct Rgba {
    pub red: u8,
    pub green: u8,
    pub blue: u8,
    pub alpha: u8,
}

/// The parts of a window decoration.
#[derive(Clone, Copy, Debug, PartialEq, Eq, Structural)]
pub enum Part {
    /// The lines around the decoration and below its title.
    Border,
    /// The bar that holds the title.
    Title,
    /// What shows behind a window that does not fill its place.
    Background,
    /// What the decoration leaves open.
    Open,
}

impl Part {
    /// Colour of the part.
    pub open spec fn spec_colour(self) -> Rgba {
        match self {
            Part::Border => Rgba { red: 32, green: 32, blue: 32, alpha: 255 },
            Part::Title => Rgba { red: 64, green: 64, blue: 64, alpha: 255 },
            Part::Background => Rgba { red: 0, green: 0, blue: 0, alpha: 255 },
            Part::Open => Rgba { red: 0, green: 0, blue: 0, alpha: 0 },
        }
    }

    /// Colour of the part.
    #[verifier::when_used_as_spec(spec_colour)]
    pub fn colour(self) -> (colour: Rgba)
        ensures
            colour == self.spec_colour(),
    {
        match self {
            Part::Border => Rgba { red: 32, green: 32, blue: 32, alpha: 255 },
            Part::Title => Rgba { red: 64, green: 64, blue: 64, alpha: 255 },
            Part::Background => Rgba { red: 0, green: 0, blue: 0, alpha: 255 },
            Part::Open => Rgba { red: 0, green: 0, blue: 0, alpha: 0 },
        }
    }
}

impl Rgba {
    /// One of the four bytes of the colour: red, green, blue, opacity.
    pub open spec fn spec_channel(self, channel: int) -> u8 {
        if channel == 0 {
            self.red
        } else if channel == 1 {
            self.green
        } else if channel == 2 {
            self.blue
        } else {
            self.alpha
        }
    }
}

/// Extent of a window decoration and of its parts.
#[derive(Clone, Copy, Debug, PartialEq, Eq, Structural)]
pub struct Decoration {
    /// Extent of the whole decoration.
    pub size: Size,
    /// Height of the title bar, its borders included.
    pub title_height: i32,
    /// Width of the border.
    pub border_width: i32,
}

impl Decoration {
    /// The decoration of the windows in the overview of `output`: it
    /// frames a window at the foreground scale, with the title above it.
    pub open spec fn spec_of(output: &Output) -> Decoration {
        let title_height = clamp_i32(OVERVIEW_TITLE_HEIGHT * output.spec_scale());
        let border_width = clamp_i32(OVERVIEW_BORDER_WIDTH * output.spec_scale());
        Decoration {
            size: Size {
                w: clamp_i32(
                    clamp_i32(
                        scaled(output.spec_size().w as int, FG_OVERVIEW_SCALE as int, SCALE_UNIT as int),
                    ) + border_width * 2,
                ),
                h: clamp_i32(
                    clamp_i32(
                        scaled(output.spec_size().h as int, FG_OVERVIEW_SCALE as int, SCALE_UNIT as int),
                    ) + title_height + border_width,
                ),
            },
            title_height,
            border_width,
        }
    }

    /// Total window decoration size, with the decoration title bar height
    /// and the decoration border width.
    pub fn of(output: &Output) -> (decoration: Self)
        ensures
            decoration == Decoration::spec_of(output),
    {
        let factor: i32 = output.scale();
        let title_height: i32 = saturate(30 * factor as i64);
        let border_width: i32 = saturate(factor as i64);
        let foreground: i64 = FG_OVERVIEW_SCALE;
        let unit: i64 = SCALE_UNIT;
        let window_size = Size {
            w: scale(output.size().w, foreground, unit),
            h: scale(output.size().h, foreground, unit),
        };
        Decoration {
            size: Size {
                w: saturate(window_size.w as i64 + border_width as i64 * 2),
                h: saturate(window_size.h as i64 + title_height as i64 + border_width as i64),
            },
            title_height,
            border_width,
        }
    }

    /// Whether column `x` and row `y` lie in the given columns and rows;
    /// the last of each is outside.
    pub open spec fn within(x: int, y: int, left: int, right: int, top: int, bottom: int) -> bool {
        left <= x < right && top <= y < bottom
    }

    /// The part of the decoration in column `x` and row `y`.
    ///
    /// The border runs around the decoration and along the top and the
    /// bottom of the title bar. Between those lies the title, below them
    /// the background.
    pub open spec fn part(self, x: int, y: int) -> Part {
        let width = self.size.w as int;
        let height = self.size.h as int;
        let border = self.border_width as int;
        let title = self.title_height as int;
        if Self::within(x, y, border, width - border, height - border, height) {
            Part::Border
        } else if Self::within(x, y, width - border, width, 0, height) {
            Part::Border
        } else if Self::within(x, y, 0, border, 0, height) {
            Part::Border
        } else if Self::within(x, y, border, width - border, title - border, title) {
            Part::Border
        } else if Self::within(x, y, border, width - border, 0, border) {
            Part::Border
        } else if Self::within(x, y, border, width, border, title - border) {
            Part::Title
        } else if Self::within(x, y, border, width - border, title, height - border) {
            Part::Background
        } else {
            Part::Open
        }
    }

    /// Number of bytes of the image of the decoration: four for each pixel.
    pub open spec fn bytes(self) -> int {
        if self.size.w <= 0 || self.size.h <= 0 {
            0
        } else {
            self.size.w * self.size.h * 4
        }
    }

    /// The image of the decoration, row by row from the top, each pixel as
    /// red, green, blue and opacity.
    pub open spec fn image(self) -> Seq<u8> {
        Seq::new(
            self.bytes() as nat,
            |i: int|
                self.part((i / 4) % (self.size.w as int), (i / 4) / (self.size.w as int)).spec_colour().spec_channel(
                    i % 4,
                ),
        )
    }

    /// Finds the part of the decoration in a column and a row.
    fn part_at(&self, x: i64, y: i64) -> (part: Part)
        ensures
            part == self.part(x as int, y as int),
    {
        let width: i64 = self.size.w as i64;
        let height: i64 = self.size.h as i64;
        let border: i64 = self.border_width as i64;
        let title: i64 = self.title_height as i64;
        let inside = border <= x && x < width - border;
        if inside && height - border <= y && y < height {
            Part::Border
        } else if width - border <= x && x < width && 0 <= y && y < height {
            Part::Border
        } else if 0 <= x && x < border && 0 <= y && y < height {
            Part::Border
        } else if inside && title - border <= y && y < title {
            Part::Border
        } else if inside && 0 <= y && y < border {
            Part::Border
        } else if border <= x && x < width && border <= y && y < title - border {
            Part::Title
        } else if inside && title <= y && y < height - border {
            Part::Background
        } else {
            Part::Open
        }
    }

    /// Create overview window decoration: the image that is handed to the
    /// renderer. There is none if its number of bytes is beyond any
    /// buffer.
    pub fn create_decoration(&self) -> (image: Option<Vec<u8>>)
        ensures
            match image {
                Some(image) => image@ == self.image(),
                None => self.bytes() > usize::MAX,
            },
    {
        if self.size.w <= 0 || self.size.h <= 0 {
            let empty: Vec<u8> = Vec::new();
            assert(empty@ =~= self.image());
            return Some(empty);
        }
        let width: u128 = self.size.w as u128;
        let height: u128 = self.size.h as u128;
        assert(0 < width * height <= 0x8000_0000 * 0x8000_0000) by (nonlinear_arith)
            requires
                0 < width <= 0x8000_0000,
                0 < height <= 0x8000_0000,
        ;
        let total: u128 = width * height * 4;
        if total > usize::MAX as u128 {
            return None;
        }
        let count: usize = total as usize;
        let columns: usize = self.size.w as usize;
        let mut buffer: Vec<u8> = Vec::new();
        let mut i: usize = 0;
        while i < count
            invariant
                i <= count,
                count == self.bytes(),
                columns == self.size.w,
                columns > 0,
                buffer@ == self.image().take(i as int),
            decreases count - i,
        {
            let pixel: usize = i / 4;
            let colour = self.part_at((pixel % columns) as i64, (pixel / columns) as i64).colour();
            let channel: usize = i % 4;
            let byte: u8 = if channel == 0 {
                colour.red
            } else if channel == 1 {
                colour.green
            } else if channel == 2 {
                colour.blue
            } else {
                colour.alpha
            };
            buffer.push(byte);
            assert(self.image().take(i + 1) =~= self.image().take(i as int).push(byte));
            i += 1;
        }
        assert(self.image().take(count as int) =~= self.image());
        Some(buffer)
    }
}

/// Graphics texture cache.
#[derive(Clone, Copy, Debug, PartialEq, Eq, Structural)]
pub struct Graphics {
    pub active_drop_target: Texture,
    pub drop_target: Texture,
    pub decoration: Texture,
}

impl Graphics {
    pub fn new(active_drop_target: Texture, drop_target: Texture, decoration: Texture) -> (graphics:
        Self)
        ensures
            graphics == (Graphics { active_drop_target, drop_target, decoration }),
    {
        Self { active_drop_target, drop_target, decoration }
    }

    /// Get the window decoration texture corresponding to the active output
    /// size; there is none if the cached texture has another size and a new
    /// one has to be made.
    pub fn decoration(&self, output: &Output) -> (texture: Option<Texture>)
        ensures
            texture == if self.decoration@.size == Decoration::spec_of(output).size {
                Some(self.decoration)
            } else {
                None
            },
    {
        if self.decoration.size() == Decoration::of(output).size {
            Some(self.decoration)
        } else {
            None
        }
    }

    /// Create overview window decoration: the image of the decoration for
    /// `output`, which is handed to the renderer.
    pub fn create_decoration(output: &Output) -> (image: Option<Vec<u8>>)
        ensures
            match image {
                Some(image) => image@ == Decoration::spec_of(output).image(),
                None => Decoration::spec_of(output).bytes() > usize::MAX,
            },
    {
        Decoration::of(output).create_decoration()
    }

    /// Total window decoration size.
    pub fn decoration_size(output: &Output) -> (size: Size)
        ensures
            size == Decoration::spec_of(output).size,
    {
        Decoration::of(output).size
    }

    /// Decoration title bar height.
    pub fn title_height(output: &Output) -> (height: i32)
        ensures
            height == Decoration::spec_of(output).title_height,
    {
        Decoration::of(output).title_height
    }

    /// Decoration border width.
    pub fn border_width(output: &Output) -> (width: i32)
        ensures
            width == Decoration::spec_of(output).border_width,
    {
        Decoration::of(output).border_width
    }
}

} // verus!
