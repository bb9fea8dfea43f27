use catacomb::geometry::{Point, Rectangle, Size};
use catacomb::orientation::Orientation;
use catacomb::output::{Canvas, Edge, Exclusive, Output};

fn rect(x: i32, y: i32, w: i32, h: i32) -> Rectangle {
    Rectangle::new(Point::new(x, y), Size::new(w, h))
}

#[test]
fn a_window_alone_gets_all_that_is_available() {
    let output = Output::new(1080, 1920);
    assert_eq!(output.size(), Size::new(1080, 1920));
    assert_eq!(output.available(), rect(0, 0, 1080, 1920));
    assert_eq!(output.primary_rectangle(false), rect(0, 0, 1080, 1920));
    assert_eq!(output.available_overview(), rect(0, 0, 1080, 1920));
    assert_eq!(output.available_fullscreen(), rect(0, 0, 1080, 1920));
}

#[test]
fn two_windows_split_the_longer_side() {
    let mut output = Output::new(1080, 1920);
    assert_eq!(output.primary_rectangle(true), rect(0, 0, 1080, 960));
    assert_eq!(output.secondary_rectangle(), rect(0, 960, 1080, 960));

    output.set_orientation(Orientation::Landscape);
    assert_eq!(output.size(), Size::new(1920, 1080));
    assert_eq!(output.primary_rectangle(true), rect(0, 0, 960, 1080));
    assert_eq!(output.secondary_rectangle(), rect(960, 0, 960, 1080));
}

#[test]
fn the_primary_gets_the_odd_pixel() {
    let output = Output::new(1080, 1921);
    assert_eq!(output.primary_rectangle(true), rect(0, 0, 1080, 961));
    assert_eq!(output.secondary_rectangle(), rect(0, 961, 1080, 960));
}

#[test]
fn the_share_of_the_primary_can_be_set() {
    let mut output = Output::new(1080, 1920);
    output.primary_share = 70;
    assert_eq!(output.primary_rectangle(true), rect(0, 0, 1080, 1344));
    assert_eq!(output.secondary_rectangle(), rect(0, 1344, 1080, 576));
    assert_eq!(output.primary_rectangle(false), rect(0, 0, 1080, 1920));

    output.primary_share = 10;
    assert_eq!(output.primary_rectangle(true), rect(0, 0, 1080, 960));
    output.primary_share = 1000;
    assert_eq!(output.primary_rectangle(true), rect(0, 0, 1080, 1920));
    assert_eq!(output.secondary_rectangle(), rect(0, 1920, 1080, 0));
}

#[test]
fn reserved_space_is_taken_from_what_is_available() {
    let mut output = Output::new(1080, 1920);
    output.exclusive = Exclusive { top: 50, right: 0, bottom: 30, left: 0 };
    assert_eq!(output.available(), rect(0, 50, 1080, 1840));
    assert_eq!(output.primary_rectangle(true), rect(0, 50, 1080, 920));
    assert_eq!(output.secondary_rectangle(), rect(0, 970, 1080, 920));
    assert_eq!(output.available_fullscreen(), rect(0, 0, 1080, 1920));

    output.exclusive = Exclusive { top: 3000, right: -5, bottom: 0, left: 2000 };
    assert_eq!(output.available(), rect(1080, 1920, 0, 0));
}

#[test]
fn an_output_without_extent_has_nothing_available() {
    let output = Output::new(-5, 100);
    assert_eq!(output.size(), Size::new(0, 100));
    assert_eq!(output.available(), rect(0, 0, 0, 100));
    assert_eq!(output.primary_rectangle(true), rect(0, 0, 0, 50));
}

#[test]
fn claims_on_an_edge_do_not_add_up() {
    let mut exclusive = Exclusive::none();
    exclusive.claim(Edge::Top, 40);
    exclusive.claim(Edge::Top, 25);
    exclusive.claim(Edge::Left, 10);
    assert_eq!(exclusive, Exclusive { top: 40, right: 0, bottom: 0, left: 10 });
    assert_eq!(exclusive.at(Edge::Top), 40);

    exclusive.reset(Edge::Top, 25);
    assert_eq!(exclusive.at(Edge::Top), 40);
    exclusive.reset(Edge::Top, 40);
    assert_eq!(exclusive, Exclusive { top: 0, right: 0, bottom: 0, left: 10 });
}

#[test]
fn the_canvas_follows_the_orientation() {
    let mut output = Output::new(1080, 1920);
    output.set_orientation(Orientation::InverseLandscape);
    assert_eq!(
        output.canvas(),
        Canvas { size: Size::new(1920, 1080), orientation: Orientation::InverseLandscape }
    );
    assert_eq!(output.orientation(), Orientation::InverseLandscape);
    output.set_orientation(Orientation::InversePortrait);
    assert_eq!(output.size(), Size::new(1080, 1920));
}
