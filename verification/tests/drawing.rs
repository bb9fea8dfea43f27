use catacomb::drawing::{
    Blit, BufferAssignment, Decoration, Graphics, Part, Rgba, SurfaceBuffer, Texture,
};
use catacomb::geometry::{Point, Rectangle, Size};
use catacomb::orientation::{Orientation, Transform};
use catacomb::output::Output;
use catacomb::screencopy::{BufferParameters, Request, ScreencopyFrameState, ScreencopyManagerState};

fn rect(x: i32, y: i32, w: i32, h: i32) -> Rectangle {
    Rectangle::new(Point::new(x, y), Size::new(w, h))
}

#[test]
fn a_texture_is_drawn_in_its_own_size_at_full_scale() {
    let output = Output::new(1000, 2000);
    let texture = Texture::new(7, Size::new(100, 50), Point::new(0, 0), 1);
    assert_eq!(texture.size(), Size::new(100, 50));
    assert_eq!(
        texture.draw_at(&output, rect(10, 20, 400, 300), 30000),
        Some(Blit { texture: 7, source: rect(0, 0, 100, 50), destination: rect(10, 20, 100, 50) })
    );
}

#[test]
fn a_texture_is_scaled_and_then_cut_to_the_window() {
    let mut output = Output::new(1000, 2000);
    output.scale = 2;
    let texture = Texture::new(7, Size::new(1000, 2000), Point::new(0, 0), 3);
    assert_eq!(
        texture.draw_at(&output, rect(125, 250, 750, 1000), 22500),
        Some(Blit {
            texture: 7,
            source: rect(0, 0, 3000, 3999),
            destination: rect(250, 500, 1500, 2000),
        })
    );

    // A texture that starts within the window is moved with the scale.
    let inner = Texture::new(8, Size::new(100, 100), Point::new(40, 80), 1);
    assert_eq!(
        inner.draw_at(&Output::new(1000, 2000), rect(10, 10, 75, 150), 15000),
        Some(Blit { texture: 8, source: rect(0, 0, 140, 180), destination: rect(30, 50, 70, 90) })
    );
}

#[test]
fn a_texture_beside_the_window_is_not_drawn() {
    let output = Output::new(1000, 2000);
    let texture = Texture::new(7, Size::new(10, 10), Point::new(100, 0), 1);
    assert_eq!(texture.draw_at(&output, rect(0, 0, 100, 100), 30000), None);
    assert_eq!(texture.draw_at(&output, rect(0, 0, 50, 100), 15000), None);
    assert!(texture.draw_at(&output, rect(0, 0, 51, 100), 15000).is_some());
    assert_eq!(texture.draw_at(&output, rect(0, 0, 1000, 1000), 0), None);
    assert_eq!(texture.draw_at(&output, rect(0, 0, 1000, 1000), -5), None);
    let below = Texture::new(7, Size::new(10, 10), Point::new(0, 100), 1);
    assert_eq!(below.draw_at(&output, rect(0, 0, 100, 100), 30000), None);
}

#[test]
fn a_buffer_holds_four_bytes_for_each_pixel() {
    assert!(Texture::holds(4, 1, 1));
    assert!(!Texture::holds(3, 1, 1));
    assert!(Texture::holds(0, 0, 10));
    assert!(Texture::holds(24, 2, 3));
    assert!(!Texture::holds(23, 2, 3));
    assert!(!Texture::holds(usize::MAX, -1, 1));
    assert!(Texture::holds(usize::MAX, i32::MAX, i32::MAX));
    assert!(!Texture::holds(1 << 40, i32::MAX, i32::MAX));
}

#[test]
fn the_buffer_cache_follows_the_buffer() {
    let mut cache = SurfaceBuffer::new();
    assert_eq!(cache, SurfaceBuffer::default());
    assert_eq!(cache.scale, 1);
    assert_eq!(cache.size(), Size::new(0, 0));

    cache.texture = Some(3);
    cache.update_buffer(2, BufferAssignment::NewBuffer { buffer: 9, dimensions: Size::new(201, 100) });
    assert_eq!(
        cache,
        SurfaceBuffer { texture: None, buffer: Some(9), scale: 2, dimensions: Size::new(201, 100) }
    );
    assert_eq!(cache.size(), Size::new(100, 50));
    cache.scale = 0;
    assert_eq!(cache.size(), Size::new(201, 100));

    cache.update_buffer(3, BufferAssignment::Removed);
    assert_eq!(cache, SurfaceBuffer::new());
}

#[test]
fn the_decoration_frames_a_window_at_the_foreground_scale() {
    let mut output = Output::new(1000, 2000);
    assert_eq!(
        Decoration::of(&output),
        Decoration { size: Size::new(752, 1531), title_height: 30, border_width: 1 }
    );
    assert_eq!(Graphics::title_height(&output), 30);
    assert_eq!(Graphics::border_width(&output), 1);
    assert_eq!(Graphics::decoration_size(&output), Size::new(752, 1531));
    assert_eq!(Graphics::create_decoration(&output).unwrap().len(), 752 * 1531 * 4);

    output.scale = 2;
    output.set_orientation(Orientation::Landscape);
    assert_eq!(
        Decoration::of(&output),
        Decoration { size: Size::new(1504, 812), title_height: 60, border_width: 2 }
    );
}

#[test]
fn the_decoration_image_has_borders_title_and_background() {
    let decoration = Decoration { size: Size::new(6, 8), title_height: 3, border_width: 1 };
    let image = decoration.create_decoration().unwrap();
    assert_eq!(image.len(), 6 * 8 * 4);
    let pixel = |x: usize, y: usize| {
        let at = (y * 6 + x) * 4;
        Rgba { red: image[at], green: image[at + 1], blue: image[at + 2], alpha: image[at + 3] }
    };
    let border = Part::Border.colour();
    let title = Part::Title.colour();
    let background = Part::Background.colour();
    assert_eq!(border, Rgba { red: 32, green: 32, blue: 32, alpha: 255 });
    assert_eq!(title, Rgba { red: 64, green: 64, blue: 64, alpha: 255 });
    assert_eq!(background, Rgba { red: 0, green: 0, blue: 0, alpha: 255 });

    let rows = [
        [border; 6],
        [border, title, title, title, title, border],
        [border; 6],
        [border, background, background, background, background, border],
        [border, background, background, background, background, border],
        [border, background, background, background, background, border],
        [border, background, background, background, background, border],
        [border; 6],
    ];
    for (y, row) in rows.iter().enumerate() {
        for (x, colour) in row.iter().enumerate() {
            assert_eq!(pixel(x, y), *colour);
        }
    }
}

#[test]
fn a_decoration_without_extent_has_no_image() {
    let flat = Decoration { size: Size::new(0, 8), title_height: 3, border_width: 1 };
    assert_eq!(flat.create_decoration(), Some(Vec::new()));
    let negative = Decoration { size: Size::new(5, -1), title_height: 3, border_width: 1 };
    assert_eq!(negative.create_decoration(), Some(Vec::new()));

    // Borders wider than the decoration leave nothing open.
    let narrow = Decoration { size: Size::new(1, 1), title_height: 30, border_width: 5 };
    assert_eq!(narrow.create_decoration(), Some(vec![32, 32, 32, 255]));
    let plain = Decoration { size: Size::new(1, 1), title_height: 0, border_width: 0 };
    assert_eq!(plain.create_decoration(), Some(vec![0, 0, 0, 255]));
}

#[test]
fn the_cached_decoration_is_used_while_its_size_fits() {
    let output = Output::new(1000, 2000);
    let small = Texture::new(1, Size::new(1, 1), Point::new(0, 0), 1);
    let fitting = Texture::new(2, Size::new(752, 1531), Point::new(0, 0), 1);
    let mut graphics = Graphics::new(small, small, small);
    assert_eq!(graphics.decoration(&output), None);
    graphics.decoration = fitting;
    assert_eq!(graphics.decoration(&output), Some(fitting));
    assert_eq!(graphics.drop_target, small);
}

#[test]
fn rectangles_turn_with_the_output() {
    let area = Size::new(100, 200);
    let r = rect(10, 20, 30, 40);
    assert_eq!(Transform::Normal.transform_rect_in(r, area), r);
    assert_eq!(Transform::Rotate90.transform_rect_in(r, area), rect(140, 10, 40, 30));
    assert_eq!(Transform::Rotate180.transform_rect_in(r, area), rect(60, 140, 30, 40));
    assert_eq!(Transform::Rotate270.transform_rect_in(r, area), rect(20, 60, 40, 30));
    assert_eq!(Transform::Rotate90.transform_size(Size::new(1, 2)), Size::new(2, 1));
    assert_eq!(Transform::Rotate180.transform_size(Size::new(1, 2)), Size::new(1, 2));
    assert_eq!(r.to_physical(3), rect(30, 60, 90, 120));
    assert_eq!(rect(1, -1, i32::MAX, 2).to_physical(2), rect(2, -2, i32::MAX, 4));
}

#[test]
fn a_capture_of_the_output_takes_the_whole_frame_buffer() {
    let mut output = Output::new(1080, 1920);
    output.scale = 2;
    output.set_orientation(Orientation::Landscape);
    assert_eq!(output.physical_resolution(), Size::new(2160, 3840));
    let manager = ScreencopyManagerState::new();
    assert_eq!(
        manager.request(&output, Request::CaptureOutput { overlay_cursor: 1 }),
        Some((
            ScreencopyFrameState { overlay_cursor: true, rect: rect(0, 0, 2160, 3840) },
            BufferParameters { width: 2160, height: 3840, stride: 8640 },
        ))
    );
    assert_eq!(manager.request(&output, Request::Destroy), None);
}

#[test]
fn a_capture_of_a_region_is_turned_scaled_and_cut() {
    let manager = ScreencopyManagerState::new();
    let region = |output: &Output, x, y, width, height| {
        let request = Request::CaptureOutputRegion { overlay_cursor: 0, x, y, width, height };
        manager.request(output, request).unwrap()
    };

    let mut output = Output::new(1000, 2000);
    let (frame, buffer) = region(&output, 10, 20, 30, 40);
    assert_eq!(frame, ScreencopyFrameState { overlay_cursor: false, rect: rect(10, 20, 30, 40) });
    assert_eq!(buffer, BufferParameters { width: 30, height: 40, stride: 120 });

    output.scale = 2;
    assert_eq!(region(&output, 10, 20, 30, 40).0.rect, rect(20, 40, 60, 80));
    assert_eq!(region(&output, 900, 1900, 500, 500).0.rect, rect(1800, 3800, 200, 200));
    assert_eq!(region(&output, -10, -10, 30, 40).0.rect, rect(0, 0, 40, 60));

    // A region beside the output leaves nothing to copy.
    let (frame, buffer) = region(&output, 5000, 0, 10, 10);
    assert_eq!(frame.rect, rect(0, 0, 0, 0));
    assert_eq!(buffer, BufferParameters { width: 0, height: 0, stride: 0 });

    output.scale = 1;
    output.set_orientation(Orientation::Landscape);
    assert_eq!(region(&output, 10, 20, 30, 40).0.rect, rect(940, 10, 40, 30));
    output.set_orientation(Orientation::InverseLandscape);
    assert_eq!(region(&output, 10, 20, 30, 40).0.rect, rect(20, 1960, 40, 30));
    output.set_orientation(Orientation::InversePortrait);
    assert_eq!(region(&output, 10, 20, 30, 40).0.rect, rect(960, 1940, 30, 40));
}
