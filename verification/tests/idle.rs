use catacomb::idle_notify::{IdleEvent, IdleNotification, IdleNotifierState};

#[test]
fn a_request_starts_its_timer() {
    let mut state = IdleNotifierState::new();
    assert!(!state.is_inhibited());
    assert_eq!(state.request(1, 5000), vec![IdleEvent::StartTimer(1, 5000)]);
    assert_eq!(
        *state.notifications(),
        vec![IdleNotification { id: 1, timeout: 5000, is_idle: false, timer: true }]
    );

    // A second request with the same handle takes the place of the first.
    assert_eq!(state.request(1, 100), vec![IdleEvent::StartTimer(1, 100)]);
    assert_eq!(state.notifications().len(), 1);
    assert_eq!(state.notifications()[0].timeout, 100);
}

#[test]
fn a_timer_that_runs_out_makes_the_client_idle() {
    let mut state = IdleNotifierState::new();
    state.request(1, 10);
    state.request(2, 20);
    assert_eq!(state.timeout(2), vec![IdleEvent::Idled(2)]);
    assert_eq!(state.timeout(2), vec![]);
    assert_eq!(state.timeout(3), vec![]);
    assert_eq!(
        *state.notifications(),
        vec![
            IdleNotification { id: 1, timeout: 10, is_idle: false, timer: true },
            IdleNotification { id: 2, timeout: 20, is_idle: true, timer: false },
        ]
    );
}

#[test]
fn activity_resumes_idle_clients_and_restarts_all_timers() {
    let mut state = IdleNotifierState::new();
    state.request(1, 10);
    state.request(2, 20);
    state.timeout(2);
    assert_eq!(
        state.notify_activity(),
        vec![
            IdleEvent::RemoveTimer(1),
            IdleEvent::StartTimer(1, 10),
            IdleEvent::Resumed(2),
            IdleEvent::StartTimer(2, 20),
        ]
    );
    assert!(state.notifications().iter().all(|notification| !notification.is_idle));
    assert!(state.notifications().iter().all(|notification| notification.timer));
}

#[test]
fn inhibition_stops_the_timers() {
    let mut state = IdleNotifierState::new();
    state.request(1, 10);
    state.request(2, 20);
    state.timeout(2);

    assert_eq!(state.set_is_inhibited(false), vec![]);
    assert_eq!(
        state.set_is_inhibited(true),
        vec![IdleEvent::RemoveTimer(1), IdleEvent::Resumed(2)]
    );
    assert!(state.is_inhibited());
    assert!(state.notifications().iter().all(|notification| !notification.timer));
    assert!(state.notifications()[1].is_idle);
    assert_eq!(state.set_is_inhibited(true), vec![]);

    // While idling is inhibited no timer is started and nobody goes idle.
    assert_eq!(state.request(3, 30), vec![]);
    assert_eq!(state.notify_activity(), vec![IdleEvent::Resumed(2)]);
    assert_eq!(state.timeout(1), vec![]);
    assert!(!state.notifications()[0].is_idle);

    assert_eq!(
        state.set_is_inhibited(false),
        vec![IdleEvent::StartTimer(1, 10), IdleEvent::StartTimer(2, 20), IdleEvent::StartTimer(3, 30)]
    );
}

#[test]
fn a_destroyed_notification_is_forgotten() {
    let mut state = IdleNotifierState::new();
    state.request(1, 10);
    state.request(2, 20);
    state.request(3, 30);
    state.destroyed(2);
    state.destroyed(9);
    let left: Vec<u64> = state.notifications().iter().map(|notification| notification.id).collect();
    assert_eq!(left, vec![1, 3]);
    assert_eq!(state.notify_activity().len(), 4);
}
