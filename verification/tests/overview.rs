use catacomb::drawing::Element;
use catacomb::geometry::{Point, Rectangle, Size};
use catacomb::layout::{LayoutPosition, Layouts};
use catacomb::orientation::Orientation;
use catacomb::output::Output;
use catacomb::overview::{DragAction, DragAndDrop, Overview, OverviewPosition};
use catacomb::transaction::TransactionClock;
use catacomb::window::Window;

fn rect(x: i32, y: i32, w: i32, h: i32) -> Rectangle {
    Rectangle::new(Point::new(x, y), Size::new(w, h))
}

fn output() -> Output {
    Output::new(1000, 2000)
}

/// Three layouts: the surfaces 1 and 2 alone, then 3 with 4 as its secondary.
fn layouts() -> Layouts {
    let mut layouts = Layouts::new();
    let mut clock = TransactionClock::new();
    for id in 1..=4 {
        layouts.create(&mut clock, 0, &output(), Window::new(id));
    }
    layouts.set_active(&mut clock, 0, Some(2));
    layouts.apply_transaction();
    layouts.set_secondary(&mut clock, 0, &output(), LayoutPosition::new(3, false));
    layouts.apply_transaction();
    layouts
}

#[test]
fn the_layout_in_the_centre_is_shown_at_three_quarters() {
    let position = OverviewPosition::new(rect(0, 0, 1000, 2000), 0, 0);
    assert_eq!(position.bounds, rect(125, 250, 750, 1500));
    assert_eq!(position.scale, 22500);

    let position = OverviewPosition::new(rect(10, 20, 1000, 2000), -3000, -3000);
    assert_eq!(position.bounds, rect(135, 270, 750, 1500));
}

#[test]
fn the_layouts_beside_the_centre_are_smaller_and_set_apart() {
    let next = OverviewPosition::new(rect(0, 0, 1000, 2000), 0, -1500);
    assert_eq!(next.scale, 21000);
    assert_eq!(next.bounds, rect(900, 300, 700, 1400));

    let previous = OverviewPosition::new(rect(0, 0, 1000, 2000), -1500, 0);
    assert_eq!(previous.scale, 21000);
    assert_eq!(previous.bounds, rect(-600, 300, 700, 1400));
}

#[test]
fn a_layout_is_placed_by_the_layout_nearest_to_its_offset() {
    let near = OverviewPosition::new(rect(0, 0, 1000, 2000), 0, -700);
    assert_eq!(near, OverviewPosition::new(rect(0, 0, 1000, 2000), 0, 0));
    let far = OverviewPosition::new(rect(0, 0, 1000, 2000), 0, -750);
    assert_eq!(far, OverviewPosition::new(rect(0, 0, 1000, 2000), 0, -1500));
}

#[test]
fn half_way_between_two_layouts_both_are_the_same_size() {
    let position = OverviewPosition::new(rect(0, 0, 1000, 2000), -750, 0);
    assert_eq!(position.scale, 21750);
    assert_eq!(position.bounds, rect(-237, 275, 725, 1450));
    let next = OverviewPosition::new(rect(0, 0, 1000, 2000), -750, -1500);
    assert_eq!(next.scale, 21750);
    assert_eq!(next.bounds, rect(513, 275, 725, 1450));
}

#[test]
fn a_layout_far_from_the_centre_has_no_extent() {
    let position = OverviewPosition::new(rect(0, 0, 1000, 2000), i64::MAX, i64::MIN);
    assert_eq!(position.scale, 0);
    assert_eq!(position.bounds.size, Size::new(0, 0));
}

#[test]
fn the_secondary_is_shown_in_what_the_primary_leaves() {
    let position = OverviewPosition::new(rect(0, 0, 1000, 2000), 0, 0);
    assert_eq!(position.secondary_bounds(&output()), rect(125, 1000, 750, 750));

    let mut wide = Output::new(1000, 2000);
    wide.set_orientation(Orientation::Landscape);
    let position = OverviewPosition::new(wide.available_overview(), 0, 0);
    assert_eq!(position.bounds, rect(250, 125, 1500, 750));
    assert_eq!(position.secondary_bounds(&wide), rect(1000, 125, 750, 750));
}

#[test]
fn the_offset_is_clamped_to_the_overdrag_limit() {
    for (count, offset, clamped) in [
        (3usize, 500i64, 375i64),
        (3, 375, 375),
        (3, 0, 0),
        (3, -3375, -3375),
        (3, -4000, -3375),
        (1, -1, -1),
        (1, -376, -375),
        (0, -9000, -375),
        (2, i64::MAX, 375),
        (2, i64::MIN, -1875),
    ] {
        let mut overview = Overview::new(offset);
        overview.clamp_offset(count, 123);
        assert_eq!(overview.x_offset, clamped);
        assert_eq!(overview.last_animation_step, None);
        assert!(-(count.max(1) as i64 - 1) * 1500 - 375 <= overview.x_offset);
        assert!(overview.x_offset <= 375);
    }
}

#[test]
fn the_overview_returns_to_the_nearest_layout() {
    for (offset, millis, moved) in [
        (375i64, 10u64, 175i64),
        (375, 100, 0),
        (-700, 10, -500),
        (-700, 1000, 0),
        (-750, 10, -950),
        (-800, 10, -1000),
        (-800, 1000, -1500),
        (-3300, 10, -3100),
        (-3300, 20, -3000),
        (-1500, 50, -1500),
        (-2999, 0, -2999),
    ] {
        let mut overview = Overview::new(offset);
        overview.last_animation_step = Some(1000);
        overview.clamp_offset(3, 1000 + millis);
        assert_eq!(overview.x_offset, moved);
        assert_eq!(overview.last_animation_step, Some(1000 + millis));
    }
}

#[test]
fn a_window_that_is_let_go_returns_to_its_place() {
    for (offset, millis, moved) in
        [(100i64, 10u64, 67i64), (100, 30, 0), (-20, 3, -10), (-20, 10, 0), (0, 10, 0), (7, 0, 7)]
    {
        let mut overview = Overview::new(0);
        overview.y_offset = offset;
        overview.last_animation_step = Some(50);
        overview.clamp_offset(3, 50 + millis);
        assert_eq!(overview.y_offset, moved);
    }

    // Time that runs backwards moves nothing.
    let mut overview = Overview::new(-700);
    overview.y_offset = 40;
    overview.last_animation_step = Some(50);
    overview.clamp_offset(3, 20);
    assert_eq!((overview.x_offset, overview.y_offset), (-700, 40));
    assert_eq!(overview.last_animation_step, Some(20));
}

#[test]
fn a_window_closes_at_a_quarter_of_the_height() {
    let mut overview = Overview::new(0);
    for (offset, close) in
        [(0i64, false), (499, false), (500, true), (501, true), (-499, false), (-500, true), (i64::MIN, true)]
    {
        overview.y_offset = offset;
        assert_eq!(overview.should_close(&output()), close);
    }
    let mut short = Output::new(1000, 2001);
    overview.y_offset = 500;
    assert!(!overview.should_close(&short));
    overview.y_offset = 501;
    assert!(overview.should_close(&short));
    short.exclusive.top = 1;
    overview.y_offset = 500;
    assert!(overview.should_close(&short));
}

#[test]
fn overdrag_is_limited_at_both_ends() {
    for (count, offset, limited) in [
        (3usize, 374i64, false),
        (3, 375, true),
        (3, 9000, true),
        (3, -3374, false),
        (3, -3375, true),
        (1, -375, true),
        (1, -374, false),
        (0, -375, true),
    ] {
        assert_eq!(Overview::new(offset).overdrag_limited(count), limited);
    }
}

#[test]
fn the_overview_animates_while_it_is_away_from_rest() {
    assert!(!Overview::new(0).animating_drag(3));
    assert!(!Overview::new(-3000).animating_drag(3));
    assert!(Overview::new(-3000).animating_drag(2));
    assert!(Overview::new(1).animating_drag(3));
    assert!(Overview::new(-1499).animating_drag(3));
    let mut overview = Overview::new(-1500);
    assert!(!overview.animating_drag(3));
    overview.y_offset = -1;
    assert!(overview.animating_drag(3));
}

#[test]
fn a_hold_is_kept_until_it_is_cancelled() {
    let mut overview = Overview::new(0);
    overview.start_hold(LayoutPosition::new(1, true));
    assert_eq!(overview.hold_timer, Some(LayoutPosition::new(1, true)));
    overview.cancel_hold();
    assert_eq!(overview.hold_timer, None);
    assert_eq!(overview.drag_action, DragAction::default());
    assert_eq!(DragAction::Close(4).closing_window(), Some(4));
    assert_eq!(DragAction::Cycle.closing_window(), None);
    assert_eq!(DragAction::Idle.closing_window(), None);
}

#[test]
fn a_touch_finds_the_window_under_it() {
    let layouts = layouts();
    let overview = Overview::new(-3000);
    let at = |x, y| overview.layout_position(&output(), &layouts, Point::new(x, y));

    assert_eq!(at(500, 300), Some(LayoutPosition::new(2, false)));
    assert_eq!(at(500, 999), Some(LayoutPosition::new(2, false)));
    assert_eq!(at(500, 1000), Some(LayoutPosition::new(2, true)));
    assert_eq!(at(874, 1749), Some(LayoutPosition::new(2, true)));
    assert_eq!(at(500, 249), None);
    assert_eq!(at(124, 1000), None);
    assert_eq!(at(50, 1000), Some(LayoutPosition::new(1, false)));
    assert_eq!(at(950, 1000), None);
    assert_eq!(at(875, 1000), None);
}

#[test]
fn a_touch_on_a_layout_that_does_not_exist_finds_nothing() {
    let layouts = layouts();
    let overview = Overview::new(0);
    let at = |x, y| overview.layout_position(&output(), &layouts, Point::new(x, y));
    assert_eq!(at(500, 1000), Some(LayoutPosition::new(0, false)));
    assert_eq!(at(950, 1000), Some(LayoutPosition::new(1, false)));
    assert_eq!(at(50, 1000), None);

    // Where a layout that does not exist overlaps one that does, it hides it.
    let between = Overview::new(750);
    let position = between.layout_position(&output(), &layouts, Point::new(700, 1000));
    assert_eq!(position, None);
    let empty = Layouts::new();
    assert_eq!(overview.layout_position(&output(), &empty, Point::new(500, 1000)), None);
}

#[test]
fn drop_areas_lie_at_the_ends_of_the_longer_side() {
    let overview = Overview::new(0);
    let dnd = DragAndDrop::new(&output(), &overview, LayoutPosition::new(0, false), 1);
    assert_eq!(dnd.drop_bounds(&output()), (rect(0, 0, 1000, 600), rect(0, 1400, 1000, 600)));

    let mut wide = Output::new(1000, 2000);
    wide.set_orientation(Orientation::Landscape);
    assert_eq!(dnd.drop_bounds(&wide), (rect(0, 0, 600, 1000), rect(1400, 0, 600, 1000)));

    let square = Output::new(15, 15);
    assert_eq!(dnd.drop_bounds(&square), (rect(0, 0, 5, 15), rect(10, 0, 5, 15)));
}

#[test]
fn a_drag_starts_where_the_window_was_shown() {
    let mut overview = Overview::new(-3000);
    overview.last_drag_point = Point::new(400, 1200);

    let dnd = DragAndDrop::new(&output(), &overview, LayoutPosition::new(2, true), 4);
    assert_eq!(dnd.window, 4);
    assert_eq!(dnd.window_position, Point::new(0, 0));
    assert_eq!(dnd.touch_position, Point::new(400, 1200));
    assert_eq!(dnd.overview_x_offset, -3000);
    assert_eq!(dnd.window_bounds, rect(125, 1000, 750, 750));
    assert_eq!(dnd.scale, 22500);
    assert_eq!(dnd.bounds(), rect(125, 1000, 750, 750));

    let beside = DragAndDrop::new(&output(), &overview, LayoutPosition::new(1, false), 2);
    assert_eq!(beside.window_bounds, rect(-600, 300, 700, 1400));
    assert_eq!(beside.scale, 21000);
}

#[test]
fn a_drag_draws_the_window_and_the_drop_areas() {
    let overview = Overview::new(0);
    let mut dnd = DragAndDrop::new(&output(), &overview, LayoutPosition::new(0, false), 1);
    dnd.window_position = Point::new(-25, 50);
    dnd.touch_position = Point::new(500, 1500);
    assert_eq!(
        dnd.draw(&output()),
        vec![
            Element::Window { window: 1, bounds: rect(100, 300, 750, 1500), scale: 22500 },
            Element::DropTarget { bounds: rect(0, 0, 1000, 600), active: false },
            Element::DropTarget { bounds: rect(0, 1400, 1000, 600), active: true },
        ]
    );
}

#[test]
fn the_overview_draws_up_to_three_layouts() {
    let layouts = layouts();
    let mut overview = Overview::new(-1500);
    assert_eq!(
        overview.draw(&output(), &layouts, 0),
        vec![
            Element::Window { window: 3, bounds: rect(900, 300, 700, 1400), scale: 21000 },
            Element::Window { window: 4, bounds: rect(900, 1000, 700, 700), scale: 21000 },
            Element::Window { window: 2, bounds: rect(125, 250, 750, 1500), scale: 22500 },
            Element::Window { window: 1, bounds: rect(-600, 300, 700, 1400), scale: 21000 },
        ]
    );

    let mut first = Overview::new(0);
    assert_eq!(
        first.draw(&output(), &layouts, 0),
        vec![
            Element::Window { window: 2, bounds: rect(900, 300, 700, 1400), scale: 21000 },
            Element::Window { window: 1, bounds: rect(125, 250, 750, 1500), scale: 22500 },
        ]
    );
}

#[test]
fn drawing_the_overview_clamps_its_offsets() {
    let layouts = layouts();
    let mut overview = Overview::new(5000);
    overview.draw(&output(), &layouts, 0);
    assert_eq!(overview.x_offset, 375);

    // A primary is dragged upwards only, a secondary downwards only.
    let mut closing = Overview::new(-3000);
    closing.drag_action = DragAction::Close(3);
    closing.y_offset = 40;
    let drawn = closing.draw(&output(), &layouts, 0);
    assert_eq!(closing.y_offset, 0);
    assert_eq!(drawn[0], Element::Window { window: 3, bounds: rect(125, 250, 750, 1500), scale: 22500 });

    closing.y_offset = -40;
    let drawn = closing.draw(&output(), &layouts, 0);
    assert_eq!(closing.y_offset, -40);
    assert_eq!(drawn[0], Element::Window { window: 3, bounds: rect(125, 210, 750, 1500), scale: 22500 });
    assert_eq!(drawn[1], Element::Window { window: 4, bounds: rect(125, 1000, 750, 750), scale: 22500 });

    closing.drag_action = DragAction::Close(4);
    let drawn = closing.draw(&output(), &layouts, 0);
    assert_eq!(closing.y_offset, 0);
    assert_eq!(drawn[1], Element::Window { window: 4, bounds: rect(125, 1000, 750, 750), scale: 22500 });

    closing.y_offset = 300;
    let drawn = closing.draw(&output(), &layouts, 0);
    assert_eq!(closing.y_offset, 300);
    assert_eq!(drawn[1], Element::Window { window: 4, bounds: rect(125, 1300, 750, 750), scale: 22500 });
}
