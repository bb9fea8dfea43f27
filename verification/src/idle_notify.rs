//! This interface allows clients to monitor user idle status.
//!
//! The state keeps for each notification whether its client was told that
//! the user is idle and whether its timer runs. Every change tells the
//! caller which events to send and which timers to start and to remove.

use vstd::prelude::*;

verus! {

/// Identity of an idle notification: the handle of the client object.
pub type NotificationId = u64;

/// A request of a client to be told when the user has been idle for some
/// time.
#[derive(Clone, Copy, Debug, PartialEq, Eq, Structural)]
pub struct IdleNotification {
    /// Handle of the client object.
    pub id: NotificationId,
    /// Time in milliseconds without activity after which the user counts as
    /// idle.
    pub timeout: u64,
    /// Whether the client was told that the user is idle.
    pub is_idle: bool,
    /// Whether the timer of the notification runs.
    pub timer: bool,
}

/// Something that the caller has to do for a notification.
#[derive(Clone, Copy, Debug, PartialEq, Eq, Structural)]
pub enum IdleEvent {
    /// Tell the client that the user is idle.
    Idled(NotificationId),
    /// Tell the client that the user is back.
    Resumed(NotificationId),
    /// Start the timer of the notification.
    StartTimer(NotificationId, u64),
    /// Remove the timer of the notification.
    RemoveTimer(NotificationId),
}

impl IdleNotification {
    /// The notification of a new request.
    pub open spec fn spec_new(id: NotificationId, timeout: u64) -> IdleNotification {
        IdleNotification { id, timeout, is_idle: false, timer: false }
    }

    /// The notification after its timer was set anew, and what that asks of
    /// the caller: a timer that runs is removed, and a new one is started
    /// unless idling is inhibited.
    pub open spec fn reinserted(self, inhibited: bool) -> (IdleNotification, Seq<IdleEvent>) {
        (
            IdleNotification { timer: !inhibited, ..self },
            (if self.timer {
                seq![IdleEvent::RemoveTimer(self.id)]
            } else {
                Seq::empty()
            }) + (if inhibited {
                Seq::empty()
            } else {
                seq![IdleEvent::StartTimer(self.id, self.timeout)]
            }),
        )
    }

    /// The notification after idling was inhibited or allowed again, and
    /// what that asks of the caller. When idling is inhibited an idle
    /// client is told that the user is back and the timer is removed; when
    /// it is allowed again the timer is set anew.
    pub open spec fn inhibited(self, inhibited: bool) -> (IdleNotification, Seq<IdleEvent>) {
        if inhibited {
            (
                IdleNotification { timer: false, ..self },
                (if self.is_idle {
                    seq![IdleEvent::Resumed(self.id)]
                } else {
                    Seq::empty()
                }) + (if self.timer {
                    seq![IdleEvent::RemoveTimer(self.id)]
                } else {
                    Seq::empty()
                }),
            )
        } else {
            self.reinserted(false)
        }
    }

    /// The notification after the user was active, and what that asks of
    /// the caller: an idle client is told that the user is back, and the
    /// timer is set anew.
    pub open spec fn active(self, inhibited: bool) -> (IdleNotification, Seq<IdleEvent>) {
        let (reset, events) = IdleNotification { is_idle: false, ..self }.reinserted(inhibited);
        (
            reset,
            (if self.is_idle {
                seq![IdleEvent::Resumed(self.id)]
            } else {
                Seq::empty()
            }) + events,
        )
    }

    /// The notification after its timer ran out, and what that asks of the
    /// caller: the client is told that the user is idle, unless idling is
    /// inhibited or the client knows already.
    pub open spec fn timed_out(self, inhibited: bool) -> (IdleNotification, Seq<IdleEvent>) {
        if !inhibited && !self.is_idle {
            (IdleNotification { is_idle: true, timer: false, ..self }, seq![IdleEvent::Idled(self.id)])
        } else {
            (IdleNotification { timer: false, ..self }, Seq::empty())
        }
    }

    /// Sets the timer of the notification anew.
    fn reinsert_timer(&mut self, inhibited: bool, events: &mut Vec<IdleEvent>)
        ensures
            *final(self) == old(self).reinserted(inhibited).0,
            final(events)@ == old(events)@ + old(self).reinserted(inhibited).1,
    {
        if self.timer {
            events.push(IdleEvent::RemoveTimer(self.id));
        }
        self.timer = false;
        if inhibited {
            assert(events@ =~= old(events)@ + old(self).reinserted(inhibited).1);
            return ;
        }
        events.push(IdleEvent::StartTimer(self.id, self.timeout));
        self.timer = true;
        assert(events@ =~= old(events)@ + old(self).reinserted(inhibited).1);
    }
}

/// The notifications after idling was inhibited or allowed again, and what
/// that asks of the caller, notification by notification.
pub open spec fn all_inhibited(notifications: Seq<IdleNotification>, inhibited: bool) -> (
    Seq<IdleNotification>,
    Seq<IdleEvent>,
)
    decreases notifications.len(),
{
    if notifications.len() == 0 {
        (Seq::empty(), Seq::empty())
    } else {
        let (rest, events) = all_inhibited(notifications.drop_last(), inhibited);
        let (last, more) = notifications.last().inhibited(inhibited);
        (rest.push(last), events + more)
    }
}

/// The notifications after the user was active, and what that asks of the
/// caller, notification by notification.
pub open spec fn all_active(notifications: Seq<IdleNotification>, inhibited: bool) -> (
    Seq<IdleNotification>,
    Seq<IdleEvent>,
)
    decreases notifications.len(),
{
    if notifications.len() == 0 {
        (Seq::empty(), Seq::empty())
    } else {
        let (rest, events) = all_active(notifications.drop_last(), inhibited);
        let (last, more) = notifications.last().active(inhibited);
        (rest.push(last), events + more)
    }
}

/// Index of the first of `notifications` with the handle `id`, searched
/// from `start` on.
pub open spec fn index_from(notifications: Seq<IdleNotification>, id: NotificationId, start: int) -> Option<
    int,
>
    decreases notifications.len() - start,
{
    if start < 0 || start >= notifications.len() {
        None
    } else if notifications[start].id == id {
        Some(start)
    } else {
        index_from(notifications, id, start + 1)
    }
}

/// What the notifier holds, as far as contracts are concerned.
pub struct IdleNotifierView {
    /// The notifications, oldest first.
    pub notifications: Seq<IdleNotification>,
    /// Whether idling is inhibited.
    pub is_inhibited: bool,
}

impl IdleNotifierView {
    /// Index of the notification with the handle `id`.
    pub open spec fn index_of(self, id: NotificationId) -> Option<int> {
        index_from(self.notifications, id, 0)
    }

    /// The notifier after a client asked for a notification, and what that
    /// asks of the caller. A notification with the same handle is replaced.
    pub open spec fn request(self, id: NotificationId, timeout: u64) -> (
        IdleNotifierView,
        Seq<IdleEvent>,
    ) {
        let (notification, events) = IdleNotification::spec_new(id, timeout).reinserted(
            self.is_inhibited,
        );
        (
            IdleNotifierView {
                notifications: match self.index_of(id) {
                    Some(index) => self.notifications.update(index, notification),
                    None => self.notifications.push(notification),
                },
                ..self
            },
            events,
        )
    }

    /// The notifier after the notification with the handle `id` was
    /// destroyed.
    pub open spec fn destroyed(self, id: NotificationId) -> IdleNotifierView {
        match self.index_of(id) {
            Some(index) => IdleNotifierView {
                notifications: self.notifications.remove(index),
                ..self
            },
            None => self,
        }
    }

    /// The notifier after idling was inhibited or allowed again, and what
    /// that asks of the caller. Nothing happens if nothing changes.
    pub open spec fn set_is_inhibited(self, is_inhibited: bool) -> (IdleNotifierView, Seq<IdleEvent>) {
        if self.is_inhibited == is_inhibited {
            (self, Seq::empty())
        } else {
            let (notifications, events) = all_inhibited(self.notifications, is_inhibited);
            (IdleNotifierView { notifications, is_inhibited }, events)
        }
    }

    /// The notifier after the user was active, and what that asks of the
    /// caller.
    pub open spec fn notify_activity(self) -> (IdleNotifierView, Seq<IdleEvent>) {
        let (notifications, events) = all_active(self.notifications, self.is_inhibited);
        (IdleNotifierView { notifications, ..self }, events)
    }

    /// The notifier after the timer of the notification with the handle
    /// `id` ran out, and what that asks of the caller.
    pub open spec fn timeout(self, id: NotificationId) -> (IdleNotifierView, Seq<IdleEvent>) {
        match self.index_of(id) {
            Some(index) => {
                let (notification, events) = self.notifications[index].timed_out(self.is_inhibited);
                (
                    IdleNotifierView {
                        notifications: self.notifications.update(index, notification),
                        ..self
                    },
                    events,
                )
            },
            None => (self, Seq::empty()),
        }
    }
}

/// State of ext-idle-notify module
#[derive(Debug)]
pub struct IdleNotifierState {
    notifications: Vec<IdleNotification>,
    is_inhibited: bool,
}

impl View for IdleNotifierState {
    type V = IdleNotifierView;

    closed spec fn view(&self) -> IdleNotifierView {
        IdleNotifierView { notifications: self.notifications@, is_inhibited: self.is_inhibited }
    }
}

impl IdleNotifierState {
    /// A notifier without notifications that lets the user go idle.
    pub fn new() -> (state: Self)
        ensures
            state@ == (IdleNotifierView { notifications: Seq::empty(), is_inhibited: false }),
    {
        IdleNotifierState { notifications: Vec::new(), is_inhibited: false }
    }

    /// Finds the notification with the handle `id`.
    fn find(&self, id: NotificationId) -> (index: Option<usize>)
        ensures
            match index {
                Some(index) => {
                    &&& self@.index_of(id) == Some(index as int)
                    &&& index < self@.notifications.len()
                    &&& self@.notifications[index as int].id == id
                },
                None => self@.index_of(id).is_none(),
            },
    {
        let mut i: usize = 0;
        while i < self.notifications.len()
            invariant
                i <= self.notifications@.len(),
                self@.index_of(id) == index_from(self.notifications@, id, i as int),
            decreases self.notifications@.len() - i,
        {
            if self.notifications[i].id == id {
                return Some(i);
            }
            i += 1;
        }
        None
    }

    /// Handles the request of a client for a notification after `timeout`
    /// milliseconds without activity.
    pub fn request(&mut self, id: NotificationId, timeout: u32) -> (events: Vec<IdleEvent>)
        ensures
            (final(self)@, events@) == old(self)@.request(id, timeout as u64),
    {
        let mut events: Vec<IdleEvent> = Vec::new();
        let mut notification = IdleNotification {
            id,
            timeout: timeout as u64,
            is_idle: false,
            timer: false,
        };
        notification.reinsert_timer(self.is_inhibited, &mut events);
        assert(events@ =~= IdleNotification::spec_new(id, timeout as u64).reinserted(
            self.is_inhibited,
        ).1);
        match self.find(id) {
            Some(index) => {
                self.notifications[index] = notification;
            },
            None => {
                self.notifications.push(notification);
            },
        }
        events
    }

    /// Forgets the notification with the handle `id`.
    pub fn destroyed(&mut self, id: NotificationId)
        ensures
            final(self)@ == old(self)@.destroyed(id),
    {
        match self.find(id) {
            Some(index) => {
                self.notifications.remove(index);
            },
            None => {},
        }
    }

    /// Inhibit entering idle state, eg. by wp idle inhibit protocol
    pub fn set_is_inhibited(&mut self, is_inhibited: bool) -> (events: Vec<IdleEvent>)
        ensures
            (final(self)@, events@) == old(self)@.set_is_inhibited(is_inhibited),
    {
        let mut events: Vec<IdleEvent> = Vec::new();
        if self.is_inhibited == is_inhibited {
            return events;
        }
        self.is_inhibited = is_inhibited;

        let count: usize = self.notifications.len();
        let mut i: usize = 0;
        assert(self.notifications@.take(0) =~= Seq::<IdleNotification>::empty());
        while i < count
            invariant
                i <= count,
                count == self.notifications@.len(),
                count == old(self)@.notifications.len(),
                self.is_inhibited == is_inhibited,
                (self.notifications@.take(i as int), events@) == all_inhibited(
                    old(self)@.notifications.take(i as int),
                    is_inhibited,
                ),
                forall|j: int| i <= j < count ==> self.notifications@[j] == old(self)@.notifications[j],
            decreases count - i,
        {
            let ghost before = self.notifications@;
            let ghost sent = events@;
            let mut notification = self.notifications[i];
            if is_inhibited {
                if notification.is_idle {
                    events.push(IdleEvent::Resumed(notification.id));
                }
                if notification.timer {
                    events.push(IdleEvent::RemoveTimer(notification.id));
                    notification.timer = false;
                }
            } else {
                notification.reinsert_timer(false, &mut events);
            }
            self.notifications[i] = notification;
            proof {
                let source = old(self)@.notifications;
                assert(source.take(i + 1).drop_last() =~= source.take(i as int));
                assert(source.take(i + 1).last() == source[i as int]);
                assert(self.notifications@.take(i + 1) =~= before.take(i as int).push(notification));
                assert(events@ =~= sent + source[i as int].inhibited(is_inhibited).1);
            }
            i += 1;
        }
        assert(self.notifications@.take(count as int) =~= self.notifications@);
        assert(old(self)@.notifications.take(count as int) =~= old(self)@.notifications);
        events
    }

    /// Is idle state inhibited, eg. by wp idle inhibit protocol
    pub fn is_inhibited(&self) -> (inhibited: bool)
        ensures
            inhibited == self@.is_inhibited,
    {
        self.is_inhibited
    }

    /// Should be called whenever activity occurs on a seat, eg.
    /// mouse/keyboard input
    pub fn notify_activity(&mut self) -> (events: Vec<IdleEvent>)
        ensures
            (final(self)@, events@) == old(self)@.notify_activity(),
    {
        let mut events: Vec<IdleEvent> = Vec::new();
        let count: usize = self.notifications.len();
        let mut i: usize = 0;
        assert(self.notifications@.take(0) =~= Seq::<IdleNotification>::empty());
        while i < count
            invariant
                i <= count,
                count == self.notifications@.len(),
                count == old(self)@.notifications.len(),
                self.is_inhibited == old(self).is_inhibited,
                (self.notifications@.take(i as int), events@) == all_active(
                    old(self)@.notifications.take(i as int),
                    self.is_inhibited,
                ),
                forall|j: int| i <= j < count ==> self.notifications@[j] == old(self)@.notifications[j],
            decreases count - i,
        {
            let ghost before = self.notifications@;
            let ghost sent = events@;
            let mut notification = self.notifications[i];
            if notification.is_idle {
                events.push(IdleEvent::Resumed(notification.id));
                notification.is_idle = false;
            }
            notification.reinsert_timer(self.is_inhibited, &mut events);
            self.notifications[i] = notification;
            proof {
                let source = old(self)@.notifications;
                assert(source.take(i + 1).drop_last() =~= source.take(i as int));
                assert(source.take(i + 1).last() == source[i as int]);
                assert(self.notifications@.take(i + 1) =~= before.take(i as int).push(notification));
                assert(events@ =~= sent + source[i as int].active(self.is_inhibited).1);
            }
            i += 1;
        }
        assert(self.notifications@.take(count as int) =~= self.notifications@);
        assert(old(self)@.notifications.take(count as int) =~= old(self)@.notifications);
        events
    }

    /// Handles the timer of the notification with the handle `id` running
    /// out.
    pub fn timeout(&mut self, id: NotificationId) -> (events: Vec<IdleEvent>)
        ensures
            (final(self)@, events@) == old(self)@.timeout(id),
    {
        let mut events: Vec<IdleEvent> = Vec::new();
        match self.find(id) {
            Some(index) => {
                let mut notification = self.notifications[index];
                assert(notification.id == id);
                if !self.is_inhibited && !notification.is_idle {
                    events.push(IdleEvent::Idled(id));
                    notification.is_idle = true;
                }
                notification.timer = false;
                assert(events@ =~= self@.notifications[index as int].timed_out(self.is_inhibited).1);
                self.notifications[index] = notification;
            },
            None => {},
        }
        events
    }

    /// The notifications, oldest first.
    pub fn notifications(&self) -> (notifications: &Vec<IdleNotification>)
        ensures
            notifications@ == self@.notifications,
    {
        &self.notifications
    }
}

} // verus!
