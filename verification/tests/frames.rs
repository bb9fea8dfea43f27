use catacomb::catacomb::{token_created, Activation, Catacomb, Draw, Frame, Rendered};
use catacomb::geometry::Size;
use catacomb::orientation::Orientation;
use catacomb::output::Output;
use catacomb::windows::{Gesture, Windows};

fn catacomb() -> Catacomb {
    let mut windows = Windows::new(Output::new(1000, 2000));
    windows.add(0, 1);
    windows.add(0, 2);
    windows.surface_commit(0, 1, Size::new(1000, 2000));
    windows.surface_commit(0, 2, Size::new(1000, 2000));
    Catacomb::new(windows)
}

/// Draws frames until nothing is left to draw.
fn rest(catacomb: &mut Catacomb, now: u64) {
    let frame = catacomb.create_frame(now);
    assert!(matches!(frame, Frame::Awake { draw: Draw::Render, .. }));
    catacomb.windows.textures(now);
    catacomb.rendered(true);
    for id in [1, 2] {
        catacomb.windows.surface_drawn(id);
    }
    let frame = catacomb.create_frame(now);
    assert!(matches!(frame, Frame::Awake { draw: Draw::Stall, .. }));
    assert!(catacomb.stalled);
}

#[test]
fn a_frame_applies_the_transaction_before_it_looks_for_damage() {
    let mut catacomb = catacomb();
    assert_eq!(catacomb.windows.layouts().active_index(), None);
    assert_eq!(
        catacomb.create_frame(10),
        Frame::Awake { focus: Some(Some(2)), inhibited: false, draw: Draw::Render }
    );
    assert_eq!(catacomb.windows.layouts().active_index(), Some(1));
    assert_eq!(catacomb.last_focus(), Some(2));
    assert!(!catacomb.stalled);
    assert_eq!(catacomb.rendered(true), Rendered::Done);

    // The focus is reported only when it changes.
    assert_eq!(
        catacomb.create_frame(20),
        Frame::Awake { focus: None, inhibited: false, draw: Draw::Render }
    );
}

#[test]
fn a_frame_without_damage_waits_for_the_transaction_or_stalls() {
    let mut catacomb = catacomb();
    rest(&mut catacomb, 10);

    catacomb.windows.set_output(Output::new(500, 500));
    catacomb.windows.resize_all(100);
    assert_eq!(
        catacomb.create_frame(400),
        Frame::Awake { focus: None, inhibited: false, draw: Draw::Wait(700) }
    );
    assert!(catacomb.stalled);
    assert_eq!(
        catacomb.create_frame(1101),
        Frame::Awake { focus: None, inhibited: false, draw: Draw::Render }
    );
    assert!(!catacomb.stalled);
}

#[test]
fn nothing_is_drawn_while_the_output_is_off() {
    let mut catacomb = catacomb();
    assert!(!catacomb.set_sleep(true));
    assert!(catacomb.sleeping);
    assert_eq!(catacomb.create_frame(10), Frame::Asleep);
    assert!(catacomb.stalled);
    assert_eq!(catacomb.windows.layouts().active_index(), None);
    assert_eq!(catacomb.unstall(20), Some(Frame::Asleep));
    assert_eq!(catacomb.force_redraw(20, true), Some(Frame::Asleep));

    assert!(!catacomb.set_sleep(false));
    catacomb.windows.unlock_orientation(30);
    assert!(!catacomb.set_sleep(true));
    assert!(catacomb.set_sleep(false));
    assert!(matches!(catacomb.unstall(40), Some(Frame::Awake { draw: Draw::Render, .. })));
    assert_eq!(catacomb.unstall(50), None);
}

#[test]
fn a_forced_redraw_draws_even_without_damage() {
    let mut catacomb = catacomb();
    rest(&mut catacomb, 10);
    assert!(matches!(
        catacomb.force_redraw(20, false),
        Some(Frame::Awake { draw: Draw::Render, .. })
    ));
    assert_eq!(catacomb.force_redraw(30, false), None);
    assert!(catacomb.windows.dirty);
    assert!(matches!(catacomb.force_redraw(40, true), Some(Frame::Awake { draw: Draw::Render, .. })));
}

#[test]
fn a_session_lock_is_confirmed_by_the_first_frame_that_is_drawn() {
    let mut catacomb = catacomb();
    catacomb.locker = true;
    assert_eq!(catacomb.rendered(false), Rendered::Redraw);
    assert!(catacomb.locker);
    assert_eq!(catacomb.rendered(true), Rendered::Lock);
    assert!(!catacomb.locker);
    assert_eq!(catacomb.rendered(true), Rendered::Done);
    assert_eq!(catacomb.rendered(false), Rendered::Redraw);
}

#[test]
fn visible_inhibitors_keep_the_output_awake() {
    let mut catacomb = catacomb();
    catacomb.inhibit(1);
    catacomb.inhibit(7);
    assert!(matches!(catacomb.create_frame(10), Frame::Awake { inhibited: false, .. }));
    assert!(catacomb.windows.surface_visible(2));
    assert!(!catacomb.windows.surface_visible(1));

    catacomb.inhibit(2);
    catacomb.inhibit(1);
    assert!(matches!(catacomb.create_frame(20), Frame::Awake { inhibited: true, .. }));
    catacomb.uninhibit(1);
    assert_eq!(catacomb.idle_inhibitors, vec![7, 2]);
    catacomb.uninhibit(2);
    catacomb.uninhibit(9);
    assert_eq!(catacomb.idle_inhibitors, vec![7]);
    assert!(matches!(catacomb.create_frame(30), Frame::Awake { inhibited: false, .. }));

    // In the overview the tiled windows get no frames.
    catacomb.inhibit(2);
    catacomb.windows.on_gesture(40, Gesture::Up);
    assert!(matches!(catacomb.create_frame(40), Frame::Awake { inhibited: false, .. }));
}

#[test]
fn the_ime_override_cycles_through_its_states() {
    let mut catacomb = catacomb();
    assert_eq!(catacomb.ime_override, None);
    assert_eq!(catacomb.toggle_ime_override(), Some(false));
    assert_eq!(catacomb.toggle_ime_override(), Some(true));
    assert_eq!(catacomb.toggle_ime_override(), None);
    assert_eq!(catacomb.ime_override, None);
}

#[test]
fn activation_depends_on_who_asks() {
    let mut catacomb = catacomb();
    catacomb.create_frame(10);
    assert_eq!(catacomb.last_focus(), Some(2));

    assert_eq!(catacomb.request_activation(0, Some(2), 1), Activation::Raise);
    assert_eq!(catacomb.request_activation(9999, Some(2), 2), Activation::Raise);
    assert_eq!(catacomb.request_activation(10000, Some(2), 1), Activation::Ignore);
    assert_eq!(catacomb.request_activation(0, Some(1), 1), Activation::Urgent);
    assert_eq!(catacomb.request_activation(0, None, 1), Activation::Urgent);
    assert_eq!(catacomb.request_activation(0, None, 2), Activation::Ignore);
}

#[test]
fn locking_the_orientation_draws_a_frame_if_rendering_stalled() {
    let mut catacomb = catacomb();
    rest(&mut catacomb, 10);
    assert!(catacomb.stalled);
    catacomb.windows.update_orientation(30, Orientation::Landscape);

    let frame = catacomb.unlock_orientation(40);
    assert_eq!(frame, Some(Frame::Awake { focus: None, inhibited: false, draw: Draw::Wait(1000) }));
    assert!(!catacomb.windows.orientation_locked());
    assert_eq!(catacomb.windows.output().orientation(), Orientation::Landscape);

    // The windows keep their size: the transaction is over at once, and nothing is damaged.
    let frame = catacomb.lock_orientation(50, Some(Orientation::InversePortrait));
    assert_eq!(frame, Some(Frame::Awake { focus: None, inhibited: false, draw: Draw::Stall }));
    assert_eq!(catacomb.windows.output().orientation(), Orientation::InversePortrait);

    assert!(catacomb.unlock_orientation(60).is_some());
    assert_eq!(catacomb.windows.output().orientation(), Orientation::Landscape);
    assert!(matches!(catacomb.create_frame(1061), Frame::Awake { draw: Draw::Render, .. }));
    assert!(!catacomb.stalled);
    assert_eq!(catacomb.lock_orientation(1070, None), None);
    assert!(catacomb.windows.orientation_locked());
}

#[test]
fn a_token_needs_a_serial_that_is_recent() {
    assert!(token_created(Some(5), true, Some(5)));
    assert!(token_created(Some(6), true, Some(5)));
    assert!(!token_created(Some(4), true, Some(5)));
    assert!(!token_created(Some(6), false, Some(5)));
    assert!(!token_created(None, true, Some(5)));
    assert!(!token_created(Some(6), true, None));

    assert!(catacomb().token_created(Some(6), true, Some(5)));

    // Serials wrap around.
    assert!(token_created(Some(3), true, Some(u32::MAX - 2)));
    assert!(!token_created(Some(u32::MAX - 2), true, Some(3)));
    assert!(token_created(Some(u32::MAX / 2 - 1), true, Some(0)));
    assert!(!token_created(Some(u32::MAX / 2), true, Some(0)));
    assert!(token_created(Some(0), true, Some(u32::MAX / 2)));
}
