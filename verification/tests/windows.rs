use catacomb::drawing::Element;
use catacomb::geometry::{Point, Rectangle, Size};
use catacomb::layer::{Layer, LayerWindow};
use catacomb::layout::LayoutPosition;
use catacomb::orientation::Orientation;
use catacomb::output::{Edge, Output};
use catacomb::overview::{DragAction, Overview};
use catacomb::windows::{Gesture, ViewMode, Windows};

fn rect(x: i32, y: i32, w: i32, h: i32) -> Rectangle {
    Rectangle::new(Point::new(x, y), Size::new(w, h))
}

/// Lets every window acknowledge the size that was requested of it.
fn acknowledge(windows: &mut Windows, now: u64) {
    for window in windows.layouts().windows() {
        if let Some(pending) = window.pending {
            windows.surface_commit(now, window.id, pending.size);
        }
    }
    for layer in windows.layers().iter() {
        if let Some(pending) = layer.window.pending {
            windows.surface_commit(now, layer.window.id, pending.size);
        }
    }
}

/// Applies what is staged once all windows have caught up.
fn settle(windows: &mut Windows, now: u64) {
    for _ in 0..4 {
        acknowledge(windows, now);
    }
    assert_eq!(windows.update_transaction(now), None);
    assert_eq!(windows.transaction_start(), None);
}

/// Adds a layer shell window and lets its client commit for the first time.
fn add_layer(windows: &mut Windows, now: u64, layer: Layer, window: LayerWindow) {
    windows.add_layer(layer, window);
    windows.surface_commit(now, window.window.id, Size::new(0, 0));
}

/// A window manager with one layout for each of the surfaces 1 to `count`; the last is active.
fn singles(count: u64) -> Windows {
    let mut windows = Windows::new(Output::new(1000, 2000));
    for id in 1..=count {
        windows.add(0, id);
    }
    settle(&mut windows, 0);
    windows
}

fn ids(windows: &Windows) -> Vec<(u64, Option<u64>)> {
    let layouts = windows.layouts();
    (0..layouts.len())
        .map(|i| {
            let layout = layouts.get(i).unwrap();
            (layout.primary().unwrap().id, layout.secondary().map(|window| window.id))
        })
        .collect()
}

/// Opens the overview at the active layout.
fn open_overview(windows: &mut Windows, now: u64) {
    windows.on_gesture(now, Gesture::Up);
    settle(windows, now);
    assert!(matches!(windows.view_mode(), ViewMode::Overview(_)));
}

/// Picks the window at `point` up in the overview and drops it at `target`.
fn drag_and_drop(windows: &mut Windows, now: u64, point: Point, target: Point) {
    windows.on_touch_start(point);
    let position = match windows.view_mode() {
        ViewMode::Overview(overview) => overview.hold_timer.unwrap(),
        view => panic!("no overview: {view:?}"),
    };
    windows.start_dnd(now, position);
    settle(windows, now);
    assert!(matches!(windows.view_mode(), ViewMode::DragAndDrop(_)));
    windows.on_drag(target);
    windows.on_drag_release(now);
}

/// Three layouts: the surfaces 1 and 2 alone, then 3 with 4 as its secondary; the second is
/// active.
fn three_workspaces() -> Windows {
    let mut windows = singles(4);
    windows.on_gesture(10, Gesture::Right);
    settle(&mut windows, 10);
    assert_eq!(windows.layouts().active_index(), Some(2));

    open_overview(&mut windows, 20);
    drag_and_drop(&mut windows, 30, Point::new(950, 1000), Point::new(500, 1900));
    settle(&mut windows, 40);
    assert_eq!(ids(&windows), vec![(1, None), (2, None), (3, Some(4))]);
    assert_eq!(windows.layouts().active_index(), Some(2));

    windows.on_gesture(50, Gesture::Right);
    settle(&mut windows, 50);
    assert_eq!(windows.layouts().active_index(), Some(1));
    assert_eq!(windows.view_mode(), ViewMode::Workspace);
    windows
}

#[test]
fn a_new_window_manager_shows_the_workspace() {
    let windows = Windows::new(Output::new(1000, 2000));
    assert!(windows.dirty);
    assert_eq!(windows.view_mode(), ViewMode::Workspace);
    assert_eq!(ViewMode::default(), ViewMode::Workspace);
    assert_eq!(windows.staged_view(), None);
    assert_eq!(windows.transaction_start(), None);
    assert!(windows.orientation_locked());
    assert_eq!(windows.unlocked_orientation(), Orientation::Portrait);
    assert!(windows.layouts().is_empty());
    assert_eq!(windows.output().size(), Size::new(1000, 2000));
    assert_eq!(windows.canvas().size, Size::new(1000, 2000));
}

#[test]
fn a_transaction_waits_for_its_windows_until_the_deadline() {
    let mut windows = Windows::new(Output::new(1000, 2000));
    assert_eq!(windows.update_transaction(5), None);

    windows.add(100, 1);
    assert_eq!(windows.transaction_start(), Some(100));
    windows.add(300, 2);
    assert_eq!(windows.transaction_start(), Some(100));
    assert_eq!(windows.update_transaction(100), Some(1000));
    assert_eq!(windows.update_transaction(400), Some(700));
    assert_eq!(windows.update_transaction(50), Some(1000));
    assert_eq!(windows.update_transaction(1100), Some(0));
    assert_eq!(windows.layouts().active_index(), None);
    assert_eq!(windows.layouts().staged(), 2);

    assert_eq!(windows.update_transaction(1101), None);
    assert_eq!(windows.transaction_start(), None);
    assert_eq!(windows.layouts().active_index(), Some(1));
    assert_eq!(windows.layouts().staged(), 0);
    assert_eq!(windows.layouts().active().primary().unwrap().rectangle, rect(0, 0, 1000, 2000));
    assert_eq!(windows.update_transaction(5000), None);
}

#[test]
fn a_transaction_is_applied_once_all_windows_have_caught_up() {
    let mut windows = Windows::new(Output::new(1000, 2000));
    windows.add(100, 1);
    windows.add(100, 2);
    windows.surface_commit(150, 1, Size::new(1000, 2000));
    assert_eq!(windows.update_transaction(200), Some(900));
    windows.surface_commit(250, 2, Size::new(1000, 1999));
    assert_eq!(windows.update_transaction(300), Some(800));
    windows.surface_commit(350, 2, Size::new(1000, 2000));
    assert_eq!(windows.update_transaction(400), None);
    assert_eq!(windows.layouts().active_index(), Some(1));
}

#[test]
fn cycling_to_the_next_workspace_switches_once_its_windows_are_done() {
    let mut windows = three_workspaces();

    windows.on_gesture(1000, Gesture::Left);
    assert_eq!(windows.transaction_start(), Some(1000));
    assert_eq!(windows.layouts().staged(), 1);
    assert_eq!(windows.layouts().active_index(), Some(1));
    assert_eq!(windows.layouts().focus(), Some(3));
    assert!(windows.layouts().find_window(3).unwrap().visible);
    assert!(windows.layouts().find_window(4).unwrap().visible);
    assert!(windows.layouts().find_window(2).unwrap().visible);

    // The windows of the new layout hold the switch up while they resize.
    windows.set_output(Output::new(1200, 2000));
    windows.resize_all(1000);
    assert_eq!(windows.update_transaction(1500), Some(500));
    windows.surface_commit(1600, 3, Size::new(1200, 1000));
    windows.surface_commit(1600, 1, Size::new(1200, 2000));
    windows.surface_commit(1600, 2, Size::new(1200, 2000));
    assert_eq!(windows.update_transaction(1700), Some(300));
    assert_eq!(windows.layouts().active_index(), Some(1));
    windows.surface_commit(1800, 4, Size::new(1200, 1000));

    assert_eq!(windows.update_transaction(1900), None);
    assert_eq!(windows.layouts().active_index(), Some(2));
    assert!(!windows.layouts().find_window(2).unwrap().visible);
    assert!(windows.layouts().find_window(3).unwrap().visible);
    assert!(windows.layouts().find_window(4).unwrap().visible);
    assert_eq!(windows.layouts().find_window(3).unwrap().rectangle, rect(0, 0, 1200, 1000));
    assert_eq!(windows.layouts().find_window(4).unwrap().rectangle, rect(0, 1000, 1200, 1000));
}

#[test]
fn cycling_to_the_next_workspace_switches_at_the_deadline() {
    let mut windows = three_workspaces();
    windows.on_gesture(1000, Gesture::Left);
    windows.set_output(Output::new(1200, 2000));
    windows.resize_all(1000);

    assert_eq!(windows.update_transaction(2000), Some(0));
    assert_eq!(windows.layouts().active_index(), Some(1));
    assert_eq!(windows.update_transaction(2001), None);
    assert_eq!(windows.layouts().active_index(), Some(2));
    assert!(!windows.layouts().find_window(2).unwrap().visible);
    assert_eq!(windows.layouts().find_window(4).unwrap().rectangle, rect(0, 1000, 1200, 1000));
}

#[test]
fn a_tap_on_a_workspace_in_the_overview_selects_it() {
    let mut windows = singles(3);
    assert_eq!(windows.layouts().active_index(), Some(2));
    open_overview(&mut windows, 10);

    // Drag the overview to the first workspace.
    windows.on_touch_start(Point::new(600, 1000));
    assert!(!windows.on_drag(Point::new(1100, 1000)));
    match windows.view_mode() {
        ViewMode::Overview(overview) => {
            assert_eq!(overview.x_offset, 0);
            assert_eq!(overview.drag_action, DragAction::Cycle);
            assert_eq!(overview.hold_timer, None);
        },
        view => panic!("no overview: {view:?}"),
    }
    windows.on_drag_release(20);

    windows.on_tap(30, Point::new(500, 1000));
    assert_eq!(windows.transaction_start(), Some(30));
    assert_eq!(windows.staged_view(), Some(ViewMode::Workspace));
    assert_eq!(windows.layouts().staged(), 1);
    assert_eq!(windows.layouts().active_index(), Some(2));
    assert_eq!(windows.layouts().focus(), Some(1));

    settle(&mut windows, 40);
    assert_eq!(windows.view_mode(), ViewMode::Workspace);
    assert_eq!(windows.layouts().active_index(), Some(0));
}

#[test]
fn a_tap_beside_the_workspaces_in_the_overview_cancels() {
    let mut windows = singles(3);
    open_overview(&mut windows, 10);
    windows.on_touch_start(Point::new(600, 1000));
    windows.on_drag(Point::new(1100, 1000));
    windows.on_drag_release(20);

    windows.on_tap(30, Point::new(5, 5));
    assert_eq!(windows.staged_view(), Some(ViewMode::Workspace));
    assert_eq!(windows.layouts().staged(), 0);

    settle(&mut windows, 40);
    assert_eq!(windows.view_mode(), ViewMode::Workspace);
    assert_eq!(windows.layouts().active_index(), Some(2));
}

#[test]
fn a_window_dropped_in_the_primary_area_becomes_the_primary() {
    let mut windows = three_workspaces();
    open_overview(&mut windows, 100);

    drag_and_drop(&mut windows, 110, Point::new(950, 1200), Point::new(500, 100));
    assert_eq!(windows.staged_view(), Some(ViewMode::Workspace));
    assert_eq!(windows.layouts().staged(), 1);
    assert_eq!(windows.layouts().position(4), Some(LayoutPosition::new(2, true)));
    assert_eq!(windows.layouts().find_window(4).unwrap().pending, Some(rect(0, 0, 1000, 2000)));
    assert_eq!(windows.layouts().find_window(3).unwrap().pending, Some(rect(0, 0, 1000, 2000)));
    assert_eq!(windows.layouts().focus(), Some(4));
    assert!(windows.update_transaction(120).is_some());

    settle(&mut windows, 130);
    assert_eq!(windows.view_mode(), ViewMode::Workspace);
    assert_eq!(ids(&windows), vec![(1, None), (2, None), (3, None), (4, None)]);
    assert_eq!(windows.layouts().active_index(), Some(3));
    assert_eq!(windows.layouts().active().primary().unwrap().id, 4);
    assert_eq!(windows.layouts().active().primary().unwrap().rectangle, rect(0, 0, 1000, 2000));
}

#[test]
fn a_window_dropped_in_the_secondary_area_becomes_the_secondary() {
    let windows = three_workspaces();
    let layout = windows.layouts().get(2).unwrap();
    assert_eq!(layout.primary().unwrap().rectangle, rect(0, 0, 1000, 1000));
    assert_eq!(layout.secondary().unwrap().rectangle, rect(0, 1000, 1000, 1000));
}

#[test]
fn a_window_dropped_elsewhere_returns_to_the_overview() {
    let mut windows = singles(2);
    open_overview(&mut windows, 10);
    windows.on_touch_start(Point::new(400, 1000));
    windows.on_drag(Point::new(250, 1000));
    windows.on_touch_start(Point::new(500, 1000));
    windows.start_dnd(20, LayoutPosition::new(1, false));
    settle(&mut windows, 20);

    assert!(!windows.on_drag(Point::new(520, 1010)));
    match windows.view_mode() {
        ViewMode::DragAndDrop(dnd) => {
            assert_eq!(dnd.window, 2);
            assert_eq!(dnd.window_position, Point::new(20, 10));
            assert_eq!(dnd.touch_position, Point::new(520, 1010));
            assert_eq!(dnd.overview_x_offset, -2400);
        },
        view => panic!("no drag: {view:?}"),
    }
    windows.on_drag_release(30);
    assert_eq!(windows.staged_view(), Some(ViewMode::Overview(Overview::new(-2400))));
    assert_eq!(windows.layouts().staged(), 0);
    settle(&mut windows, 40);
    assert_eq!(windows.view_mode(), ViewMode::Overview(Overview::new(-2400)));
}

#[test]
fn a_window_dragged_off_the_output_stops_at_its_edge() {
    let mut windows = singles(1);
    open_overview(&mut windows, 10);
    windows.on_touch_start(Point::new(500, 1000));
    windows.start_dnd(20, LayoutPosition::new(0, false));
    settle(&mut windows, 20);

    assert!(windows.on_drag(Point::new(1500, -20)));
    match windows.view_mode() {
        ViewMode::DragAndDrop(dnd) => {
            assert_eq!(dnd.touch_position, Point::new(999, 0));
            assert_eq!(dnd.window_position, Point::new(499, -1000));
        },
        view => panic!("no drag: {view:?}"),
    }
    assert!(!windows.on_drag(Point::new(1000, 2000)));
    assert!(windows.on_drag(Point::new(1001, 2000)));
}

#[test]
fn a_drag_in_the_overview_is_locked_to_its_first_direction() {
    let mut windows = singles(2);
    open_overview(&mut windows, 10);

    // A vertical drag on a window closes it.
    windows.on_touch_start(Point::new(500, 1000));
    windows.on_drag(Point::new(510, 900));
    windows.on_drag(Point::new(900, 700));
    match windows.view_mode() {
        ViewMode::Overview(overview) => {
            assert_eq!(overview.drag_action, DragAction::Close(2));
            assert_eq!(overview.y_offset, -300);
            assert_eq!(overview.x_offset, -1500);
            assert!(!overview.should_close(windows.output()));
        },
        view => panic!("no overview: {view:?}"),
    }
    windows.on_drag(Point::new(900, 500));
    match windows.view_mode() {
        ViewMode::Overview(overview) => assert!(overview.should_close(windows.output())),
        view => panic!("no overview: {view:?}"),
    }

    // A new touch starts over; a vertical drag beside the windows cycles.
    windows.on_touch_start(Point::new(500, 100));
    match windows.view_mode() {
        ViewMode::Overview(overview) => assert_eq!(overview.drag_action, DragAction::Idle),
        view => panic!("no overview: {view:?}"),
    }
    windows.on_drag(Point::new(497, 50));
    match windows.view_mode() {
        ViewMode::Overview(overview) => {
            assert_eq!(overview.drag_action, DragAction::Cycle);
            assert_eq!(overview.x_offset, -1500 - 3 * 6);
            assert_eq!(overview.y_offset, 0);
        },
        view => panic!("no overview: {view:?}"),
    }

    // It stays a cycle drag, and runs into the overdrag limit.
    windows.on_drag(Point::new(490, 50));
    assert!(windows.on_drag(Point::new(100, 900)));
    match windows.view_mode() {
        ViewMode::Overview(overview) => {
            assert_eq!(overview.drag_action, DragAction::Cycle);
            assert_eq!(overview.x_offset, -1500 - 400 * 6);
            assert_eq!(overview.last_animation_step, None);
        },
        view => panic!("no overview: {view:?}"),
    }
    windows.on_drag_release(77);
    match windows.view_mode() {
        ViewMode::Overview(overview) => assert_eq!(overview.last_animation_step, Some(77)),
        view => panic!("no overview: {view:?}"),
    }
    assert!(windows.damaged());
}

#[test]
fn gestures_open_and_leave_the_overview() {
    let mut windows = singles(2);
    windows.on_gesture(10, Gesture::Up);
    assert_eq!(windows.staged_view(), Some(ViewMode::Overview(Overview::new(-1500))));
    assert_eq!(windows.view_mode(), ViewMode::Workspace);
    settle(&mut windows, 10);

    windows.on_gesture(20, Gesture::Left);
    windows.on_gesture(20, Gesture::Right);
    assert_eq!(windows.layouts().staged(), 0);

    windows.on_gesture(20, Gesture::Up);
    assert_eq!(windows.staged_view(), Some(ViewMode::Workspace));
    settle(&mut windows, 30);
    assert_eq!(windows.view_mode(), ViewMode::Workspace);
    assert_eq!(windows.layouts().active_index(), None);

    let mut empty = Windows::new(Output::new(1000, 2000));
    empty.on_gesture(5, Gesture::Up);
    empty.on_gesture(5, Gesture::Left);
    assert_eq!(empty.staged_view(), None);
    assert_eq!(empty.transaction_start(), None);
}

#[test]
fn fullscreen_resizes_the_window_to_the_output() {
    let mut windows = singles(2);
    add_layer(&mut windows, 5, Layer::Top, LayerWindow::new(9, Some(Edge::Top), 100, true));
    assert_eq!(windows.transaction_start(), Some(5));
    settle(&mut windows, 5);
    let panel = windows.layers().find(9).unwrap();
    assert_eq!(panel.window.rectangle, rect(0, 0, 1000, 100));
    assert!(panel.window.visible);
    assert_eq!(windows.layouts().find_window(2).unwrap().rectangle, rect(0, 100, 1000, 1900));

    windows.fullscreen(10, 7);
    assert_eq!(windows.staged_view(), None);
    windows.fullscreen(10, 2);
    assert_eq!(windows.staged_view(), Some(ViewMode::Fullscreen(2)));
    assert!(windows.layouts().find_window(2).unwrap().fullscreen);
    assert_eq!(windows.layouts().find_window(2).unwrap().pending, Some(rect(0, 0, 1000, 2000)));
    assert_eq!(windows.layouts().find_window(1).unwrap().pending, None);
    settle(&mut windows, 20);
    assert_eq!(windows.view_mode(), ViewMode::Fullscreen(2));

    windows.unfullscreen(30, 1);
    assert_eq!(windows.staged_view(), None);
    windows.unfullscreen(30, 2);
    assert_eq!(windows.staged_view(), Some(ViewMode::Workspace));
    assert!(!windows.layouts().find_window(2).unwrap().fullscreen);
    assert_eq!(windows.layouts().find_window(2).unwrap().pending, Some(rect(0, 100, 1000, 1900)));
    settle(&mut windows, 40);
    assert_eq!(windows.view_mode(), ViewMode::Workspace);
}

#[test]
fn a_fullscreen_window_that_dies_leaves_the_workspace() {
    let mut windows = singles(2);
    windows.fullscreen(10, 2);
    settle(&mut windows, 10);

    windows.reap_xdg(20, 2);
    assert_eq!(windows.transaction_start(), Some(20));
    assert_eq!(windows.staged_view(), Some(ViewMode::Workspace));
    settle(&mut windows, 30);
    assert_eq!(windows.view_mode(), ViewMode::Workspace);
    assert_eq!(ids(&windows), vec![(1, None)]);
    assert_eq!(windows.layouts().active_index(), None);
    assert!(windows.dirty);
}

#[test]
fn the_overview_closes_when_the_last_window_dies() {
    let mut windows = singles(1);
    open_overview(&mut windows, 10);
    windows.reap_xdg(20, 1);
    assert_eq!(windows.update_transaction(20), None);
    assert_eq!(windows.view_mode(), ViewMode::Workspace);
    assert!(windows.layouts().is_empty());
}

#[test]
fn locking_and_unlocking_restores_what_the_device_reported() {
    let mut windows = singles(1);
    windows.unlock_orientation(10);
    assert_eq!(windows.output().orientation(), Orientation::Portrait);
    windows.update_orientation(20, Orientation::Landscape);
    assert_eq!(windows.output().orientation(), Orientation::Landscape);
    assert_eq!(windows.layouts().find_window(1).unwrap().pending, Some(rect(0, 0, 2000, 1000)));

    windows.lock_orientation(30, Some(Orientation::InversePortrait));
    assert!(windows.orientation_locked());
    assert_eq!(windows.output().orientation(), Orientation::InversePortrait);
    assert_eq!(windows.unlocked_orientation(), Orientation::Landscape);
    assert_eq!(windows.layouts().find_window(1).unwrap().pending, Some(rect(0, 0, 1000, 2000)));

    windows.unlock_orientation(40);
    assert!(!windows.orientation_locked());
    assert_eq!(windows.output().orientation(), Orientation::Landscape);
    assert_eq!(windows.transaction_start(), Some(10));
    settle(&mut windows, 50);
    assert_eq!(windows.canvas().orientation, Orientation::Landscape);
    assert_eq!(windows.canvas().size, Size::new(2000, 1000));
}

#[test]
fn a_locked_output_notes_what_the_device_reports() {
    let mut windows = singles(1);
    windows.update_orientation(10, Orientation::Landscape);
    assert_eq!(windows.output().orientation(), Orientation::Portrait);
    assert_eq!(windows.unlocked_orientation(), Orientation::Landscape);
    assert_eq!(windows.transaction_start(), None);

    windows.lock_orientation(20, None);
    assert_eq!(windows.output().orientation(), Orientation::Portrait);
    assert_eq!(windows.transaction_start(), None);

    windows.lock_orientation(30, Some(Orientation::InverseLandscape));
    windows.update_orientation(35, Orientation::Portrait);
    windows.update_orientation(36, Orientation::InversePortrait);
    assert_eq!(windows.output().orientation(), Orientation::InverseLandscape);
    windows.unlock_orientation(40);
    assert_eq!(windows.output().orientation(), Orientation::InversePortrait);
}

#[test]
fn a_touch_goes_to_the_topmost_window() {
    let mut windows = three_workspaces();
    windows.on_gesture(60, Gesture::Left);
    settle(&mut windows, 60);
    assert_eq!(windows.layouts().active_index(), Some(2));
    add_layer(&mut windows, 70, Layer::Background, LayerWindow::new(20, None, 0, false));
    add_layer(&mut windows, 70, Layer::Overlay, LayerWindow::new(21, Some(Edge::Bottom), 50, true));
    add_layer(&mut windows, 70, Layer::Top, LayerWindow::new(22, Some(Edge::Bottom), 80, false));
    settle(&mut windows, 70);
    assert_eq!(windows.layers().find(21).unwrap().window.rectangle, rect(0, 1950, 1000, 50));
    assert_eq!(windows.layers().find(22).unwrap().window.rectangle, rect(0, 1920, 1000, 80));
    assert_eq!(windows.layouts().find_window(3).unwrap().rectangle, rect(0, 0, 1000, 960));
    assert_eq!(windows.layouts().find_window(4).unwrap().rectangle, rect(0, 960, 1000, 960));

    assert_eq!(windows.touch_surface_at(Point::new(10, 10)), Some(3));
    assert_eq!(windows.layouts().focus(), Some(3));
    assert_eq!(windows.focus(), Some(3));
    assert!(windows.layouts().find_window(3).unwrap().activated);

    assert_eq!(windows.touch_surface_at(Point::new(10, 1000)), Some(4));
    assert_eq!(windows.focus(), Some(4));
    assert!(!windows.layouts().find_window(3).unwrap().activated);
    assert!(windows.layouts().find_window(4).unwrap().activated);

    // A layer shell window that refuses the focus leaves it where it is.
    assert_eq!(windows.touch_surface_at(Point::new(10, 1960)), Some(21));
    assert_eq!(windows.focus(), Some(4));

    assert_eq!(windows.touch_surface_at(Point::new(10, 1930)), Some(22));
    assert_eq!(windows.layouts().focus(), None);
    assert_eq!(windows.layers().focus(), Some(22));
    assert_eq!(windows.focus(), Some(22));
    assert!(!windows.layouts().find_window(4).unwrap().activated);

    windows.on_tap(80, Point::new(10, 1985));
    assert_eq!(windows.focus(), None);
    windows.touch_surface_at(Point::new(10, 1000));
    windows.on_tap(80, Point::new(10, 1984));
    assert_eq!(windows.focus(), Some(4));
}

#[test]
fn a_touch_beside_all_windows_clears_the_focus() {
    let mut windows = singles(1);
    windows.set_output(Output::new(3000, 3000));
    assert_eq!(windows.focus(), Some(1));
    assert_eq!(windows.touch_surface_at(Point::new(2000, 10)), None);
    assert_eq!(windows.focus(), None);

    open_overview(&mut windows, 10);
    assert_eq!(windows.touch_surface_at(Point::new(10, 10)), None);
}

#[test]
fn the_focus_falls_back_to_the_primary() {
    let mut windows = three_workspaces();
    windows.on_gesture(60, Gesture::Left);
    settle(&mut windows, 60);
    assert_eq!(windows.touch_surface_at(Point::new(10, 1500)), Some(4));
    assert_eq!(windows.focus(), Some(4));

    windows.reap_xdg(70, 4);
    assert_eq!(windows.focus(), Some(4));
    settle(&mut windows, 80);
    assert_eq!(windows.focus(), Some(3));
    assert_eq!(windows.layouts().focus(), Some(3));
    assert!(windows.layouts().find_window(3).unwrap().activated);
}

#[test]
fn damage_is_tracked_by_view() {
    let mut windows = singles(2);
    assert!(windows.damaged());
    let frame = windows.textures(0);
    assert_eq!(
        frame,
        vec![
            Element::GestureHandle { location: Point::new(0, 1985) },
            Element::Window { window: 2, bounds: rect(0, 0, 1000, 2000), scale: 30000 },
        ]
    );
    assert!(windows.damaged());
    for id in [1, 2] {
        assert!(windows.layouts().find_window(id).unwrap().dirty);
    }
}

#[test]
fn frames_show_what_the_view_shows() {
    let mut windows = three_workspaces();
    add_layer(&mut windows, 70, Layer::Background, LayerWindow::new(20, None, 0, false));
    add_layer(&mut windows, 70, Layer::Overlay, LayerWindow::new(21, Some(Edge::Top), 50, true));
    settle(&mut windows, 70);
    windows.on_gesture(75, Gesture::Left);
    settle(&mut windows, 75);

    let handle = Element::GestureHandle { location: Point::new(0, 1985) };
    let background = Element::Window { window: 20, bounds: rect(0, 50, 1000, 1950), scale: 30000 };
    let overlay = Element::Window { window: 21, bounds: rect(0, 0, 1000, 50), scale: 30000 };
    assert_eq!(
        windows.textures(80),
        vec![
            handle,
            overlay,
            Element::Window { window: 4, bounds: rect(0, 1025, 1000, 975), scale: 30000 },
            Element::Window { window: 3, bounds: rect(0, 50, 1000, 975), scale: 30000 },
            background,
        ]
    );
    assert!(!windows.dirty);
    assert_eq!(windows.request_frames(), vec![20, 21, 3, 4]);

    windows.fullscreen(90, 3);
    settle(&mut windows, 90);
    assert_eq!(
        windows.textures(100),
        vec![overlay, Element::Window { window: 3, bounds: rect(0, 0, 1000, 2000), scale: 30000 }]
    );
    assert_eq!(windows.request_frames(), vec![21, 3]);

    windows.on_gesture(110, Gesture::Up);
    assert!(!windows.layouts().find_window(3).unwrap().fullscreen);
    settle(&mut windows, 110);
    let frame = windows.textures(120);
    assert_eq!(frame.len(), 5);
    assert_eq!(frame[0], handle);
    assert_eq!(frame[4], background);
    assert_eq!(windows.request_frames(), vec![20]);
}

#[test]
fn a_layer_shell_window_that_dies_frees_its_edge() {
    let mut windows = singles(1);
    add_layer(&mut windows, 10, Layer::Top, LayerWindow::new(9, Some(Edge::Left), 100, false));
    settle(&mut windows, 10);
    assert_eq!(windows.output().exclusive().left, 100);
    assert_eq!(windows.layouts().find_window(1).unwrap().rectangle, rect(100, 0, 900, 2000));
    windows.textures(15);

    windows.reap_layer(20, 9);
    assert_eq!(windows.transaction_start(), Some(20));
    assert_eq!(windows.output().exclusive().left, 0);
    assert_eq!(windows.layouts().find_window(1).unwrap().pending, Some(rect(0, 0, 1000, 2000)));
    assert_eq!(windows.layers().iter().len(), 1);
    settle(&mut windows, 30);
    assert_eq!(windows.layers().iter().len(), 0);
    assert!(windows.dirty);
    assert_eq!(windows.layouts().find_window(1).unwrap().rectangle, rect(0, 0, 1000, 2000));

    windows.reap_layer(40, 9);
    assert_eq!(windows.transaction_start(), Some(40));
}

#[test]
fn damage_lasts_until_the_windows_are_drawn() {
    let mut windows = singles(1);
    add_layer(&mut windows, 5, Layer::Top, LayerWindow::new(9, None, 0, false));
    settle(&mut windows, 5);
    windows.textures(10);
    assert!(windows.damaged());
    windows.surface_drawn(1);
    assert!(windows.damaged());
    windows.surface_drawn(9);
    assert!(!windows.damaged());

    windows.surface_commit(20, 9, Size::new(1000, 2000));
    assert!(windows.damaged());
    windows.surface_drawn(9);
    assert_eq!(windows.update_transaction(20), None);
    assert!(!windows.damaged());

    // The overview is redrawn for as long as it is away from rest.
    open_overview(&mut windows, 30);
    windows.textures(30);
    windows.surface_drawn(1);
    windows.surface_drawn(9);
    assert!(!windows.damaged());
    windows.on_touch_start(Point::new(500, 100));
    windows.on_drag(Point::new(510, 100));
    windows.textures(40);
    assert!(windows.damaged());
}

#[test]
fn a_surface_that_is_added_twice_has_one_window() {
    let mut windows = singles(2);
    windows.add(50, 1);
    assert_eq!(windows.transaction_start(), None);
    assert_eq!(ids(&windows), vec![(1, None), (2, None)]);
    windows.add(60, 3);
    assert_eq!(windows.transaction_start(), Some(60));
    assert_eq!(windows.layouts().len(), 3);
}

#[test]
fn a_commit_of_an_unknown_surface_changes_nothing() {
    let mut windows = singles(1);
    windows.textures(0);
    windows.surface_commit(10, 5, Size::new(1, 1));
    assert_eq!(windows.transaction_start(), None);
    assert!(!windows.dirty);
    windows.set_dirty();
    assert!(windows.dirty);
}

#[test]
fn buffers_are_imported_for_what_is_shown() {
    let mut windows = singles(2);
    add_layer(&mut windows, 5, Layer::Top, LayerWindow::new(9, None, 0, false));
    settle(&mut windows, 5);
    assert_eq!(windows.import_buffers(), vec![1, 2, 9]);
    assert_eq!(windows.find_xdg(2).unwrap().id, 2);
    assert_eq!(windows.find_xdg(9), None);

    // In the overview only windows whose buffer changed its size are imported.
    open_overview(&mut windows, 10);
    assert_eq!(windows.import_buffers(), vec![9]);
    windows.surface_commit(20, 1, Size::new(3, 4));
    assert_eq!(windows.import_buffers(), vec![1, 9]);
    assert!(windows.layouts().find_window(1).unwrap().pending_buffer_resize());
}
