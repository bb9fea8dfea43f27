use catacomb::geometry::{Point, Rectangle, Size};
use catacomb::layout::{Layout, LayoutPosition, Layouts};
use catacomb::output::Output;
use catacomb::transaction::TransactionClock;
use catacomb::window::{Window, WindowChange};

fn rect(x: i32, y: i32, w: i32, h: i32) -> Rectangle {
    Rectangle::new(Point::new(x, y), Size::new(w, h))
}

fn output() -> Output {
    Output::new(1000, 2000)
}

/// Layouts with one window each, showing the surfaces 1 to `count`; the last is active.
fn singles(count: u64) -> (Layouts, TransactionClock) {
    let mut layouts = Layouts::new();
    let mut clock = TransactionClock::new();
    for id in 1..=count {
        layouts.create(&mut clock, 0, &output(), Window::new(id));
    }
    layouts.apply_transaction();
    clock.clear();
    (layouts, clock)
}

fn ids(layouts: &Layouts) -> Vec<(u64, Option<u64>)> {
    (0..layouts.len())
        .map(|i| {
            let layout = layouts.get(i).unwrap();
            (layout.primary().unwrap().id, layout.secondary().map(|window| window.id))
        })
        .collect()
}

#[test]
fn new_layouts_are_empty() {
    let layouts = Layouts::new();
    assert!(layouts.is_empty());
    assert_eq!(layouts.len(), 0);
    assert_eq!(layouts.active_index(), None);
    assert_eq!(layouts.active(), Layout { primary: None, secondary: None });
    assert_eq!(layouts.focus(), None);
    assert_eq!(layouts.staged(), 0);
    assert_eq!(layouts.get(0), None);
    assert_eq!(layouts.active_offset(), 0);
}

#[test]
fn create_stages_the_new_layout_as_active() {
    let mut layouts = Layouts::new();
    let mut clock = TransactionClock::new();
    layouts.create(&mut clock, 7, &output(), Window::new(1));

    assert_eq!(clock.started_at(), Some(7));
    assert_eq!(layouts.len(), 1);
    assert_eq!(layouts.staged(), 1);
    assert_eq!(layouts.active_index(), None);
    assert_eq!(layouts.focus(), Some(1));
    let window = layouts.get(0).unwrap().primary().unwrap();
    assert_eq!(window.pending, Some(rect(0, 0, 1000, 2000)));
    assert_eq!(window.rectangle, rect(0, 0, 0, 0));
    assert!(window.visible);
    assert!(!window.transaction_done());

    layouts.apply_transaction();
    assert_eq!(layouts.staged(), 0);
    assert_eq!(layouts.active_index(), Some(0));
    let window = layouts.active().primary().unwrap();
    assert_eq!(window.rectangle, rect(0, 0, 1000, 2000));
    assert_eq!(window.pending, None);
    assert_eq!(layouts.get(0).unwrap().window_count(), 1);
}

#[test]
fn a_surface_has_one_window() {
    let (mut layouts, mut clock) = singles(2);
    layouts.create(&mut clock, 9, &output(), Window::new(1));
    assert_eq!(layouts.len(), 2);
    assert_eq!(layouts.staged(), 0);
    assert_eq!(clock.started_at(), None);

    layouts.create(&mut clock, 9, &output(), Window::new(3));
    assert_eq!(layouts.len(), 3);
    assert_eq!(clock.started_at(), Some(9));

    // A window is replaced only by a window of its surface.
    let mut other = layouts.find_window(1).unwrap();
    other.id = 2;
    layouts.set_window(LayoutPosition::new(0, false), other);
    assert_eq!(ids(&layouts), vec![(1, None), (2, None), (3, None)]);
}

#[test]
fn cycle_active_wraps_at_both_ends() {
    let (mut layouts, mut clock) = singles(3);
    assert_eq!(layouts.active_index(), Some(2));

    layouts.cycle_active(&mut clock, 5, 1);
    assert_eq!(clock.started_at(), Some(5));
    assert_eq!(layouts.active_index(), Some(2));
    layouts.apply_transaction();
    assert_eq!(layouts.active_index(), Some(0));

    layouts.cycle_active(&mut clock, 5, -1);
    layouts.apply_transaction();
    assert_eq!(layouts.active_index(), Some(2));

    layouts.cycle_active(&mut clock, 5, -7);
    layouts.apply_transaction();
    assert_eq!(layouts.active_index(), Some(1));

    layouts.cycle_active(&mut clock, 5, isize::MAX);
    layouts.apply_transaction();
    assert_eq!(layouts.active_index(), Some(((1 + isize::MAX as i128) % 3) as usize));

    layouts.cycle_active(&mut clock, 5, isize::MIN);
    layouts.cycle_active(&mut clock, 5, 0);
    layouts.apply_transaction();
    assert_eq!(layouts.active_index(), Some(((1 + isize::MAX as i128) % 3) as usize));
}

#[test]
fn cycle_active_and_back_returns() {
    for count in 1..5u64 {
        for start in 0..count as usize {
            for n in [-9isize, -4, -1, 0, 1, 2, 3, 12] {
                let (mut layouts, mut clock) = singles(count);
                layouts.set_active(&mut clock, 0, Some(start));
                layouts.apply_transaction();
                assert_eq!(layouts.active_index(), Some(start));

                layouts.cycle_active(&mut clock, 0, n);
                layouts.apply_transaction();
                layouts.cycle_active(&mut clock, 0, -n);
                layouts.apply_transaction();
                assert_eq!(layouts.active_index(), Some(start));
            }
        }
    }
}

#[test]
fn the_first_step_from_no_layout_leads_to_the_first() {
    for (n, target) in [(1isize, 0usize), (-1, 0), (2, 1), (-2, 2), (0, 0), (4, 0)] {
        let (mut layouts, mut clock) = singles(3);
        layouts.set_active(&mut clock, 0, None);
        layouts.apply_transaction();
        assert_eq!(layouts.active_index(), None);

        layouts.cycle_active(&mut clock, 0, n);
        layouts.apply_transaction();
        assert_eq!(layouts.active_index(), Some(target));
    }
}

#[test]
fn cycle_active_without_layouts_does_nothing() {
    let mut layouts = Layouts::new();
    let mut clock = TransactionClock::new();
    layouts.cycle_active(&mut clock, 3, 1);
    assert_eq!(layouts.staged(), 0);
    assert_eq!(clock.started_at(), None);
    layouts.apply_transaction();
    assert_eq!(layouts.active_index(), None);
}

#[test]
fn set_active_tells_the_windows_at_once_and_switches_later() {
    let (mut layouts, mut clock) = singles(3);
    layouts.set_focus(None);
    layouts.change(&mut clock, 0, 1, WindowChange::Drawn);

    layouts.set_active(&mut clock, 40, Some(0));
    assert_eq!(clock.started_at(), Some(40));
    assert_eq!(layouts.focus(), Some(1));
    assert_eq!(layouts.active_index(), Some(2));
    assert!(layouts.get(2).unwrap().primary().unwrap().visible);

    layouts.apply_transaction();
    assert_eq!(layouts.active_index(), Some(0));
    assert!(layouts.get(0).unwrap().primary().unwrap().visible);
    assert!(!layouts.get(2).unwrap().primary().unwrap().visible);
}

#[test]
fn a_switch_to_a_layout_that_is_gone_changes_nothing() {
    let (mut layouts, mut clock) = singles(2);
    layouts.set_active(&mut clock, 0, Some(9));
    assert_eq!(layouts.focus(), None);
    layouts.apply_transaction();
    assert_eq!(layouts.active_index(), Some(1));
    assert!(layouts.get(1).unwrap().primary().unwrap().visible);

    layouts.set_active(&mut clock, 0, None);
    layouts.apply_transaction();
    assert_eq!(layouts.active_index(), None);
    assert!(!layouts.get(1).unwrap().primary().unwrap().visible);
}

#[test]
fn set_secondary_joins_two_layouts() {
    let (mut layouts, mut clock) = singles(2);
    layouts.set_secondary(&mut clock, 9, &output(), LayoutPosition::new(0, false));

    assert_eq!(clock.started_at(), Some(9));
    assert_eq!(layouts.staged(), 1);
    assert_eq!(layouts.focus(), Some(1));
    assert_eq!(layouts.get(1).unwrap().primary().unwrap().pending, Some(rect(0, 0, 1000, 1000)));
    assert_eq!(layouts.get(0).unwrap().primary().unwrap().pending, Some(rect(0, 1000, 1000, 1000)));
    assert_eq!(ids(&layouts), vec![(1, None), (2, None)]);

    layouts.apply_transaction();
    assert_eq!(ids(&layouts), vec![(2, Some(1))]);
    assert_eq!(layouts.active_index(), Some(0));
    let layout = layouts.active();
    assert_eq!(layout.window_count(), 2);
    assert_eq!(layout.primary().unwrap().rectangle, rect(0, 0, 1000, 1000));
    assert_eq!(layout.secondary().unwrap().rectangle, rect(0, 1000, 1000, 1000));
}

#[test]
fn set_secondary_displaces_the_old_secondary() {
    let (mut layouts, mut clock) = singles(3);
    layouts.set_secondary(&mut clock, 0, &output(), LayoutPosition::new(0, false));
    layouts.apply_transaction();
    assert_eq!(ids(&layouts), vec![(2, None), (3, Some(1))]);
    assert_eq!(layouts.active_index(), Some(1));

    layouts.set_secondary(&mut clock, 0, &output(), LayoutPosition::new(0, false));
    assert_eq!(layouts.get(1).unwrap().secondary().unwrap().pending, Some(rect(0, 0, 1000, 2000)));
    layouts.apply_transaction();
    assert_eq!(ids(&layouts), vec![(3, Some(2)), (1, None)]);
    assert_eq!(layouts.active_index(), Some(0));
    assert_eq!(layouts.get(1).unwrap().primary().unwrap().rectangle, rect(0, 0, 1000, 2000));
}

#[test]
fn set_secondary_swaps_the_windows_of_the_active_layout() {
    let (mut layouts, mut clock) = singles(2);
    layouts.set_secondary(&mut clock, 0, &output(), LayoutPosition::new(0, false));
    layouts.apply_transaction();
    assert_eq!(ids(&layouts), vec![(2, Some(1))]);

    layouts.set_secondary(&mut clock, 0, &output(), LayoutPosition::new(0, false));
    let layout = layouts.get(0).unwrap();
    assert_eq!(layout.primary().unwrap().pending, Some(rect(0, 1000, 1000, 1000)));
    assert_eq!(layout.secondary().unwrap().pending, Some(rect(0, 0, 1000, 2000)));
    layouts.apply_transaction();
    assert_eq!(ids(&layouts), vec![(1, Some(2))]);
    assert!(!layouts.active().primary().unwrap().visible);
}

#[test]
fn set_secondary_without_an_active_primary_sets_the_primary() {
    let (mut layouts, mut clock) = singles(2);
    layouts.set_active(&mut clock, 0, None);
    layouts.apply_transaction();

    layouts.set_secondary(&mut clock, 0, &output(), LayoutPosition::new(0, false));
    layouts.apply_transaction();
    assert_eq!(ids(&layouts), vec![(1, None), (2, None)]);
    assert_eq!(layouts.active_index(), Some(0));
}

#[test]
fn set_primary_of_a_window_that_is_alone_switches_to_its_layout() {
    let (mut layouts, mut clock) = singles(3);
    layouts.set_primary(&mut clock, 4, &output(), LayoutPosition::new(1, false));
    assert_eq!(clock.started_at(), Some(4));
    assert_eq!(layouts.get(1).unwrap().primary().unwrap().pending, None);
    layouts.apply_transaction();
    assert_eq!(layouts.active_index(), Some(1));
    assert_eq!(ids(&layouts), vec![(1, None), (2, None), (3, None)]);
}

#[test]
fn set_primary_parts_the_windows_of_a_layout() {
    let (mut layouts, mut clock) = singles(3);
    layouts.set_secondary(&mut clock, 0, &output(), LayoutPosition::new(0, false));
    layouts.apply_transaction();
    assert_eq!(ids(&layouts), vec![(2, None), (3, Some(1))]);

    // The secondary becomes the primary of a layout of its own.
    layouts.set_primary(&mut clock, 0, &output(), LayoutPosition::new(1, true));
    let layout = layouts.get(1).unwrap();
    assert_eq!(layout.primary().unwrap().pending, Some(rect(0, 0, 1000, 2000)));
    assert_eq!(layout.secondary().unwrap().pending, Some(rect(0, 0, 1000, 2000)));
    assert_eq!(layouts.focus(), Some(1));
    layouts.apply_transaction();
    assert_eq!(ids(&layouts), vec![(2, None), (3, None), (1, None)]);
    assert_eq!(layouts.active_index(), Some(2));
    assert_eq!(layouts.active().primary().unwrap().rectangle, rect(0, 0, 1000, 2000));
}

#[test]
fn set_primary_keeps_the_primary_and_moves_the_secondary_out() {
    let (mut layouts, mut clock) = singles(2);
    layouts.set_secondary(&mut clock, 0, &output(), LayoutPosition::new(0, false));
    layouts.apply_transaction();
    layouts.set_active(&mut clock, 0, None);
    layouts.apply_transaction();

    layouts.set_primary(&mut clock, 0, &output(), LayoutPosition::new(0, false));
    layouts.apply_transaction();
    assert_eq!(ids(&layouts), vec![(2, None), (1, None)]);
    assert_eq!(layouts.active_index(), Some(0));
}

#[test]
fn positions_beyond_the_layouts_are_ignored() {
    let (mut layouts, mut clock) = singles(2);
    layouts.set_primary(&mut clock, 0, &output(), LayoutPosition::new(2, false));
    layouts.set_secondary(&mut clock, 0, &output(), LayoutPosition::new(7, true));
    assert_eq!(layouts.staged(), 0);
    assert_eq!(clock.started_at(), None);
    assert_eq!(layouts.window_at(LayoutPosition::new(2, false)), None);
    assert_eq!(layouts.window_at(LayoutPosition::new(0, true)), None);
    assert_eq!(layouts.window_at(LayoutPosition::new(0, false)).unwrap().id, 1);
}

#[test]
fn reap_of_a_window_that_is_alone_removes_its_layout() {
    let (mut layouts, mut clock) = singles(3);
    layouts.reap(&mut clock, 11, &output(), 2);
    assert_eq!(clock.started_at(), Some(11));
    assert_eq!(layouts.len(), 3);
    assert!(!layouts.get(1).unwrap().primary().unwrap().alive());

    layouts.apply_transaction();
    assert_eq!(ids(&layouts), vec![(1, None), (3, None)]);
    assert_eq!(layouts.active_index(), Some(1));
    assert_eq!(layouts.position(2), None);
    assert_eq!(layouts.find_window(2), None);
}

#[test]
fn reap_of_the_active_layout_leaves_no_layout_active() {
    let (mut layouts, mut clock) = singles(3);
    layouts.reap(&mut clock, 0, &output(), 3);
    layouts.apply_transaction();
    assert_eq!(ids(&layouts), vec![(1, None), (2, None)]);
    assert_eq!(layouts.active_index(), None);
}

#[test]
fn reap_of_one_of_two_windows_grows_the_other() {
    for dying in [1u64, 2] {
        let (mut layouts, mut clock) = singles(2);
        layouts.set_secondary(&mut clock, 0, &output(), LayoutPosition::new(0, false));
        layouts.apply_transaction();
        assert_eq!(ids(&layouts), vec![(2, Some(1))]);

        layouts.reap(&mut clock, 0, &output(), dying);
        let sibling = layouts.find_window(3 - dying).unwrap();
        assert_eq!(sibling.pending, Some(rect(0, 0, 1000, 2000)));
        layouts.apply_transaction();
        assert_eq!(ids(&layouts), vec![(3 - dying, None)]);
        assert_eq!(layouts.active_index(), Some(0));
        assert_eq!(layouts.active().primary().unwrap().rectangle, rect(0, 0, 1000, 2000));
    }
}

#[test]
fn a_staged_change_of_a_window_that_died_is_dropped() {
    let (mut layouts, mut clock) = singles(2);
    layouts.set_secondary(&mut clock, 0, &output(), LayoutPosition::new(0, false));
    layouts.apply_transaction();
    assert_eq!(ids(&layouts), vec![(2, Some(1))]);
    layouts.set_primary(&mut clock, 0, &output(), LayoutPosition::new(0, true));
    layouts.reap(&mut clock, 0, &output(), 1);
    assert_eq!(layouts.staged(), 1);
    layouts.apply_transaction();
    assert_eq!(ids(&layouts), vec![(2, None)]);
    assert_eq!(layouts.active_index(), Some(0));
    assert_eq!(layouts.active().primary().unwrap().rectangle, rect(0, 0, 1000, 2000));

    // A secondary that is not there cannot be staged.
    let (mut layouts, mut clock) = singles(2);
    layouts.set_secondary(&mut clock, 0, &output(), LayoutPosition::new(0, true));
    assert_eq!(layouts.staged(), 0);
    layouts.apply_transaction();
    assert_eq!(ids(&layouts), vec![(1, None), (2, None)]);
    assert_eq!(layouts.active_index(), Some(1));

    // A secondary that has moved away since cannot be moved again.
    let (mut layouts, mut clock) = singles(3);
    layouts.set_secondary(&mut clock, 0, &output(), LayoutPosition::new(0, false));
    layouts.apply_transaction();
    assert_eq!(ids(&layouts), vec![(2, None), (3, Some(1))]);
    layouts.set_primary(&mut clock, 0, &output(), LayoutPosition::new(1, true));
    layouts.set_primary(&mut clock, 0, &output(), LayoutPosition::new(1, true));
    assert_eq!(layouts.staged(), 2);
    layouts.apply_transaction();
    assert_eq!(ids(&layouts), vec![(2, None), (3, None), (1, None)]);
    assert_eq!(layouts.active_index(), Some(2));
}

#[test]
fn a_staged_change_lapses_if_another_window_has_taken_the_position() {
    let (mut layouts, mut clock) = singles(3);
    layouts.set_active(&mut clock, 0, Some(0));
    layouts.apply_transaction();
    layouts.set_secondary(&mut clock, 0, &output(), LayoutPosition::new(1, false));
    layouts.apply_transaction();
    layouts.set_active(&mut clock, 0, Some(1));
    layouts.apply_transaction();
    assert_eq!(ids(&layouts), vec![(1, Some(2)), (3, None)]);
    assert_eq!(layouts.active_index(), Some(1));

    // Both changes are staged for the surface 1; once it has moved, the surface 2 is in its place.
    layouts.set_secondary(&mut clock, 0, &output(), LayoutPosition::new(0, false));
    layouts.set_primary(&mut clock, 0, &output(), LayoutPosition::new(0, false));
    assert_eq!(layouts.staged(), 2);
    layouts.apply_transaction();
    assert_eq!(ids(&layouts), vec![(2, None), (3, Some(1))]);
    assert_eq!(layouts.active_index(), Some(1));

    // A change that is staged for a window that a later change moves first is applied to it.
    let (mut layouts, mut clock) = singles(2);
    layouts.set_secondary(&mut clock, 0, &output(), LayoutPosition::new(0, false));
    layouts.apply_transaction();
    assert_eq!(ids(&layouts), vec![(2, Some(1))]);
    layouts.set_primary(&mut clock, 0, &output(), LayoutPosition::new(0, true));
    layouts.set_primary(&mut clock, 0, &output(), LayoutPosition::new(0, true));
    layouts.apply_transaction();
    assert_eq!(ids(&layouts), vec![(2, None), (1, None)]);
    assert_eq!(layouts.active_index(), Some(1));
}

#[test]
fn no_layout_is_empty_after_a_transaction() {
    let (mut layouts, mut clock) = singles(4);
    layouts.set_secondary(&mut clock, 0, &output(), LayoutPosition::new(1, false));
    layouts.set_primary(&mut clock, 0, &output(), LayoutPosition::new(0, false));
    layouts.cycle_active(&mut clock, 0, 2);
    layouts.reap(&mut clock, 0, &output(), 1);
    layouts.reap(&mut clock, 0, &output(), 4);
    layouts.apply_transaction();
    for i in 0..layouts.len() {
        assert!(layouts.get(i).unwrap().primary().is_some());
    }
    if let Some(index) = layouts.active_index() {
        assert!(layouts.get(index).unwrap().window_count() > 0);
    }
    assert_eq!(layouts.position(1), None);
    assert_eq!(layouts.position(4), None);
    assert_eq!(layouts.windows().len(), 2);
}

#[test]
fn position_finds_the_first_window_of_a_surface() {
    let (mut layouts, mut clock) = singles(3);
    layouts.set_secondary(&mut clock, 0, &output(), LayoutPosition::new(0, false));
    layouts.apply_transaction();
    assert_eq!(layouts.position(2), Some(LayoutPosition::new(0, false)));
    assert_eq!(layouts.position(3), Some(LayoutPosition::new(1, false)));
    assert_eq!(layouts.position(1), Some(LayoutPosition::new(1, true)));
    assert_eq!(layouts.position(4), None);
    assert_eq!(layouts.find_window(1).unwrap().id, 1);
    let all: Vec<u64> = layouts.windows().iter().map(|window| window.id).collect();
    assert_eq!(all, vec![2, 3, 1]);
    let visible: Vec<u64> = layouts.with_visible().iter().map(|window| window.id).collect();
    assert_eq!(visible, vec![3, 1]);
}

#[test]
fn resize_all_asks_every_window_for_its_slot() {
    let (mut layouts, mut clock) = singles(3);
    layouts.set_secondary(&mut clock, 0, &output(), LayoutPosition::new(0, false));
    layouts.apply_transaction();
    clock.clear();

    let wide = Output::new(3000, 1000);
    layouts.resize_all(&mut clock, 8, &wide);
    assert_eq!(clock.started_at(), Some(8));
    assert_eq!(layouts.find_window(2).unwrap().pending, Some(rect(0, 0, 3000, 1000)));
    assert_eq!(layouts.find_window(3).unwrap().pending, Some(rect(0, 0, 1500, 1000)));
    assert_eq!(layouts.find_window(1).unwrap().pending, Some(rect(1500, 0, 1500, 1000)));
    assert!(!layouts.transaction_done());

    // A secondary that is dead does not share the output.
    layouts.change(&mut clock, 8, 1, WindowChange::Destroyed);
    layouts.resize_all(&mut clock, 8, &wide);
    assert_eq!(layouts.find_window(3).unwrap().pending, Some(rect(0, 0, 3000, 1000)));

    let mut none = Layouts::new();
    let mut idle = TransactionClock::new();
    none.resize_all(&mut idle, 8, &wide);
    assert_eq!(idle.started_at(), None);
}

#[test]
fn windows_are_done_once_they_acknowledge_the_size() {
    let (mut layouts, mut clock) = singles(1);
    assert!(layouts.transaction_done());
    layouts.resize_all(&mut clock, 0, &Output::new(500, 600));
    assert!(!layouts.transaction_done());
    layouts.change(&mut clock, 0, 1, WindowChange::Commit(Size::new(500, 600)));
    assert!(layouts.transaction_done());
    assert!(layouts.dirty());
    layouts.change(&mut clock, 0, 1, WindowChange::Drawn);
    assert!(!layouts.dirty());
    layouts.apply_transaction();
    assert!(layouts.dirty());
}

#[test]
fn the_active_offset_counts_layouts_from_the_first() {
    let (layouts, _) = singles(3);
    assert_eq!(layouts.active_offset(), -3000);
}

#[test]
fn set_window_replaces_only_what_is_there() {
    let (mut layouts, _) = singles(1);
    let mut window = layouts.find_window(1).unwrap();
    window.fullscreen = true;
    layouts.set_window(LayoutPosition::new(0, true), window);
    assert_eq!(layouts.get(0).unwrap().secondary(), None);
    layouts.set_window(LayoutPosition::new(0, false), window);
    assert!(layouts.find_window(1).unwrap().fullscreen);
}
