use catacomb::geometry::{Point, Rectangle, Size, Vector};
use catacomb::transaction::{start_transaction, TransactionClock, MAX_TRANSACTION_MILLIS};
use catacomb::window::{Window, WindowChange};

fn rect(x: i32, y: i32, w: i32, h: i32) -> Rectangle {
    Rectangle::new(Point::new(x, y), Size::new(w, h))
}

#[test]
fn a_transaction_is_started_once() {
    let mut clock = TransactionClock::new();
    assert!(!clock.is_running());
    assert_eq!(clock.started_at(), None);
    assert_eq!(clock.elapsed(5), None);

    start_transaction(&mut clock, 100);
    assert!(clock.is_running());
    assert_eq!(clock.started_at(), Some(100));
    start_transaction(&mut clock, 200);
    clock.start(300);
    assert_eq!(clock.started_at(), Some(100));
    assert_eq!(clock.elapsed(350), Some(250));
    assert_eq!(clock.elapsed(100), Some(0));
    assert_eq!(clock.elapsed(99), Some(0));

    clock.clear();
    assert_eq!(clock.started_at(), None);
    start_transaction(&mut clock, 0);
    assert_eq!(clock.started_at(), Some(0));
    assert_eq!(MAX_TRANSACTION_MILLIS, 1000);
}

#[test]
fn a_window_is_resized_in_two_steps() {
    let mut clock = TransactionClock::new();
    let mut window = Window::new(7);
    assert_eq!(window.id, 7);
    assert!(window.alive());
    assert!(!window.visible);
    assert!(window.transaction_done());
    window.apply_transaction();
    assert!(!window.dirty());

    window.set_dimensions(&mut clock, 3, rect(1, 2, 30, 40));
    assert_eq!(clock.started_at(), Some(3));
    assert_eq!(window.rectangle, rect(0, 0, 0, 0));
    assert_eq!(window.pending, Some(rect(1, 2, 30, 40)));
    assert!(!window.transaction_done());
    assert!(!window.contains(Point::new(5, 5)));

    window.ack(Size::new(30, 41));
    assert!(!window.transaction_done());
    window.ack(Size::new(30, 40));
    assert!(window.transaction_done());

    window.apply_transaction();
    assert_eq!(window.rectangle, rect(1, 2, 30, 40));
    assert_eq!(window.pending, None);
    assert!(window.dirty());
    assert!(window.contains(Point::new(5, 5)));
    assert!(!window.contains(Point::new(31, 5)));
}

#[test]
fn a_window_that_keeps_its_geometry_is_not_damaged() {
    let mut clock = TransactionClock::new();
    let mut window = Window::new(7);
    window.set_dimensions(&mut clock, 0, rect(0, 0, 0, 0));
    assert!(window.transaction_done());
    window.apply_transaction();
    assert!(!window.dirty());
}

#[test]
fn changes_happen_to_a_window_one_by_one() {
    let mut clock = TransactionClock::new();
    let mut window = Window::new(7);
    window.enter();
    assert!(window.visible);
    window.leave();
    assert!(!window.visible);

    window.change(&mut clock, 1, WindowChange::Fullscreen(true));
    window.change(&mut clock, 1, WindowChange::Activated(true));
    window.change(&mut clock, 1, WindowChange::Commit(Size::new(3, 4)));
    assert!(window.fullscreen && window.activated && window.dirty);
    assert_eq!(window.acked, Size::new(3, 4));
    assert_eq!(clock.started_at(), None);
    assert!(!WindowChange::Drawn.transactional());

    window.change(&mut clock, 2, WindowChange::Drawn);
    assert!(!window.dirty);
    window.change(&mut clock, 3, WindowChange::Resize(rect(0, 0, 3, 4)));
    assert!(WindowChange::Resize(rect(0, 0, 3, 4)).transactional());
    assert_eq!(clock.started_at(), Some(3));
    assert!(window.transaction_done());
    window.change(&mut clock, 4, WindowChange::Destroyed);
    assert!(!window.alive());
    window.kill();
    assert!(!window.alive());
}

#[test]
fn vectors_scale_by_a_fraction() {
    assert_eq!(Size::new(1000, 2000).scale(3, 4), Size::new(750, 1500));
    assert_eq!(Size::new(5, 7).scale(1, 2), Size::new(3, 4));
    assert_eq!(Point::new(-5, -7).scale(1, 2), Point::new(-3, -4));
    assert_eq!(Point::new(10, -10).scale(-1, 3), Point::new(-3, 3));
    assert_eq!(Size::new(i32::MAX, 1).scale(2, 1), Size::new(i32::MAX, 2));
}
