//! Catacomb compositor state.
//!
//! This is the part of the compositor that decides what a frame tick does.
//! The caller owns the devices: it draws, schedules and sends what the
//! decisions ask for.

use vstd::prelude::*;
use crate::orientation::Orientation;
use crate::window::WindowId;
use crate::windows::{Windows, WindowsView};

verus! {

/// Time in milliseconds before activation tokens are invalidated.
pub const ACTIVATION_TIMEOUT: u64 = 10000;

/// What is to be drawn for a frame tick.
#[derive(Clone, Copy, Debug, PartialEq, Eq, Structural)]
pub enum Draw {
    /// There is damage: a frame is to be rendered.
    Render,
    /// Nothing changed, but a transaction waits for its windows: a redraw
    /// is to be scheduled after this many milliseconds.
    Wait(u64),
    /// Nothing is to be done until something changes.
    Stall,
}

/// What a frame tick asks of the caller.
#[derive(Clone, Copy, Debug, PartialEq, Eq, Structural)]
pub enum Frame {
    /// The output is off.
    Asleep,
    /// The output is on.
    Awake {
        /// The surface that the keyboard focus is to go to, if the focus
        /// changed.
        focus: Option<Option<WindowId>>,
        /// Whether a visible surface keeps the output from going idle.
        inhibited: bool,
        /// What is to be drawn.
        draw: Draw,
    },
}

/// What is to be done once a frame was handed to the renderer.
#[derive(Clone, Copy, Debug, PartialEq, Eq, Structural)]
pub enum Rendered {
    /// The renderer did not draw: the frame is to be tried again at the
    /// next frame interval.
    Redraw,
    /// The frame is on the output, and the session lock that waited for it
    /// is to be confirmed.
    Lock,
    /// The frame is on the output.
    Done,
}

/// What is to become of a request for activation.
#[derive(Clone, Copy, Debug, PartialEq, Eq, Structural)]
pub enum Activation {
    /// The request is dropped.
    Ignore,
    /// The surface is brought to the front.
    Raise,
    /// The surface is marked as wanting attention.
    Urgent,
}

/// Shared compositor state.
#[derive(Debug)]
pub struct Catacomb {
    pub windows: Windows,
    pub terminated: bool,
    pub sleeping: bool,
    /// Surfaces that keep the output from going idle while they are
    /// visible.
    pub idle_inhibitors: Vec<WindowId>,
    /// Surface that has the keyboard focus.
    pub last_focus: Option<WindowId>,
    /// Whether a session lock waits for the frame that hides the desktop.
    pub locker: bool,
    /// Whether the on-screen keyboard is forced on or off.
    pub ime_override: Option<bool>,
    /// Indicates if rendering was intentionally stalled.
    ///
    /// This will occur when a frame tick detects no damage, thus stopping
    /// rendering. If this is `true`, rendering needs to be kicked off
    /// manually again when damage is received.
    pub stalled: bool,
}

/// What the compositor holds, as far as contracts are concerned.
pub struct CatacombView {
    pub windows: WindowsView,
    pub terminated: bool,
    pub sleeping: bool,
    pub idle_inhibitors: Seq<WindowId>,
    pub last_focus: Option<WindowId>,
    pub locker: bool,
    pub ime_override: Option<bool>,
    pub stalled: bool,
}

impl View for Catacomb {
    type V = CatacombView;

    open spec fn view(&self) -> CatacombView {
        CatacombView {
            windows: self.windows@,
            terminated: self.terminated,
            sleeping: self.sleeping,
            idle_inhibitors: self.idle_inhibitors@,
            last_focus: self.last_focus,
            locker: self.locker,
            ime_override: self.ime_override,
            stalled: self.stalled,
        }
    }
}

impl CatacombView {
    /// What is drawn for a frame tick at `now`: a frame if anything
    /// changed once the transaction is updated and the focus is looked up,
    /// else a redraw at the deadline of the transaction, if one waits.
    pub open spec fn draw(self, now: u64) -> Draw {
        if self.windows.update_transaction(now).focus().damaged() {
            Draw::Render
        } else {
            match self.windows.transaction_deadline(now) {
                Some(deadline) => Draw::Wait(deadline),
                None => Draw::Stall,
            }
        }
    }

    /// What a frame tick at `now` asks of the caller.
    pub open spec fn frame(self, now: u64) -> Frame {
        if self.sleeping {
            Frame::Asleep
        } else {
            let updated = self.windows.update_transaction(now);
            Frame::Awake {
                focus: if updated.focused() != self.last_focus {
                    Some(updated.focused())
                } else {
                    None
                },
                inhibited: inhibited_by(updated.focus(), self.idle_inhibitors),
                draw: self.draw(now),
            }
        }
    }

    /// The compositor after a frame tick at `now`.
    ///
    /// While the output is off the tick only notes that rendering stalled.
    /// Else the transaction is updated first, then the focus, and rendering
    /// stalls unless a frame is drawn.
    pub open spec fn create_frame(self, now: u64) -> CatacombView {
        if self.sleeping {
            CatacombView { stalled: true, ..self }
        } else {
            let updated = self.windows.update_transaction(now);
            CatacombView {
                windows: updated.focus(),
                last_focus: updated.focused(),
                stalled: !(self.draw(now) is Render),
                ..self
            }
        }
    }

    /// The compositor after rendering was started again, if it had stalled.
    pub open spec fn unstall(self, now: u64) -> CatacombView {
        if self.stalled {
            self.create_frame(now)
        } else {
            self
        }
    }

    /// The frame that is drawn when rendering is started again, if it had
    /// stalled.
    pub open spec fn unstalled(self, now: u64) -> Option<Frame> {
        if self.stalled {
            Some(self.frame(now))
        } else {
            None
        }
    }
}

/// Whether any of `inhibitors` is on the output.
pub open spec fn inhibited_by(windows: WindowsView, inhibitors: Seq<WindowId>) -> bool {
    exists|i: int| 0 <= i < inhibitors.len() && windows.surface_visible(#[trigger] inhibitors[i])
}

/// `inhibitors` without `surface`.
pub open spec fn uninhibited(inhibitors: Seq<WindowId>, surface: WindowId) -> Seq<WindowId>
    decreases inhibitors.len(),
{
    if inhibitors.len() == 0 {
        Seq::empty()
    } else if inhibitors.last() == surface {
        uninhibited(inhibitors.drop_last(), surface)
    } else {
        uninhibited(inhibitors.drop_last(), surface).push(inhibitors.last())
    }
}

/// The state of the override that follows `state` when it is toggled: from
/// no override to forced off, on to forced on, and back to no override.
pub open spec fn toggled(state: Option<bool>) -> Option<bool> {
    match state {
        None => Some(false),
        Some(false) => Some(true),
        Some(true) => None,
    }
}

/// What is to become of a request to activate `surface` with a token that
/// is `age` milliseconds old and was made while `token_surface` had the
/// focus.
///
/// A token that is too old is void. A request from the client that has the
/// focus raises the surface; any other marks it urgent, unless the surface
/// has the focus itself.
pub open spec fn spec_activation(
    age: u64,
    token_surface: Option<WindowId>,
    surface: WindowId,
    last_focus: Option<WindowId>,
) -> Activation {
    if age >= ACTIVATION_TIMEOUT {
        Activation::Ignore
    } else if token_surface == last_focus {
        Activation::Raise
    } else if Some(surface) != last_focus {
        Activation::Urgent
    } else {
        Activation::Ignore
    }
}

/// Whether the serial `serial` was issued no earlier than the serial
/// `other`. Serials wrap around: of two that lie half of their range apart
/// or more, the lower one is the later.
pub open spec fn no_older(serial: u32, other: u32) -> bool {
    let distance = if other > serial {
        other - serial
    } else {
        serial - other
    };
    if distance < u32::MAX / 2 {
        other <= serial
    } else {
        serial <= other
    }
}

/// Checks if a serial was generated after or is equal to another given
/// serial.
pub fn is_no_older_than(serial: u32, other: u32) -> (newer: bool)
    ensures
        newer == no_older(serial, other),
{
    let distance: u32 = if other > serial { other - serial } else { serial - other };
    if distance < u32::MAX / 2 {
        other <= serial
    } else {
        serial <= other
    }
}

/// Decides whether an activation token is valid when it is created: it
/// has to come with a serial of this seat that is no older than the last
/// time the keyboard entered a surface.
pub fn token_created(serial: Option<u32>, own_seat: bool, last_enter: Option<u32>) -> (valid: bool)
    ensures
        valid == (own_seat && match (serial, last_enter) {
            (Some(serial), Some(last_enter)) => no_older(serial, last_enter),
            _ => false,
        }),
{
    let (serial, last_enter) = match (serial, last_enter) {
        (Some(serial), Some(last_enter)) => (serial, last_enter),
        _ => {
            return false;
        },
    };
    own_seat && is_no_older_than(serial, last_enter)
}

impl Catacomb {
    /// Initialize the compositor.
    pub fn new(windows: Windows) -> (catacomb: Self)
        ensures
            catacomb@ == (CatacombView {
                windows: windows@,
                terminated: false,
                sleeping: false,
                idle_inhibitors: Seq::empty(),
                last_focus: None,
                locker: false,
                ime_override: None,
                stalled: false,
            }),
    {
        Catacomb {
            windows,
            terminated: false,
            sleeping: false,
            idle_inhibitors: Vec::new(),
            last_focus: None,
            locker: false,
            ime_override: None,
            stalled: false,
        }
    }

    /// Whether a visible surface keeps the output from going idle.
    fn inhibited(&self) -> (inhibited: bool)
        ensures
            inhibited == inhibited_by(self.windows@, self.idle_inhibitors@),
    {
        let mut i: usize = 0;
        while i < self.idle_inhibitors.len()
            invariant
                i <= self.idle_inhibitors@.len(),
                forall|j: int|
                    0 <= j < i ==> !self.windows@.surface_visible(#[trigger] self.idle_inhibitors@[j]),
            decreases self.idle_inhibitors@.len() - i,
        {
            if self.windows.surface_visible(self.idle_inhibitors[i]) {
                return true;
            }
            i += 1;
        }
        false
    }

    /// Handle everything necessary to draw a single frame.
    ///
    /// While the output is off nothing happens. Else the transaction is
    /// updated first, then the focus, and only then it is decided by the
    /// damage whether a frame is rendered.
    pub fn create_frame(&mut self, now: u64) -> (frame: Frame)
        ensures
            final(self)@ == old(self)@.create_frame(now),
            frame == old(self)@.frame(now),
    {
        // Skip rendering while the screen is off.
        if self.sleeping {
            self.stalled = true;
            return Frame::Asleep;
        }
        // Clear rendering stall status.
        self.stalled = false;

        // Update transaction before rendering to update device orientation.
        let transaction_deadline = self.windows.update_transaction(now);

        // Update surface focus.
        let focus = self.windows.focus();
        let changed = if focus != self.last_focus {
            self.last_focus = focus;
            Some(focus)
        } else {
            None
        };

        // Update idle inhibition state.
        let inhibited = self.inhibited();

        // Redraw only when there is damage present.
        let draw = if self.windows.damaged() {
            Draw::Render
        } else {
            // Indicate rendering was stalled.
            self.stalled = true;
            match transaction_deadline {
                // Force a redraw after the transaction has timed out.
                Some(deadline) => Draw::Wait(deadline),
                None => Draw::Stall,
            }
        };
        Frame::Awake { focus: changed, inhibited, draw }
    }

    /// Takes note of what the renderer did with a frame.
    pub fn rendered(&mut self, drawn: bool) -> (next: Rendered)
        ensures
            next == if !drawn {
                Rendered::Redraw
            } else if old(self).locker {
                Rendered::Lock
            } else {
                Rendered::Done
            },
            final(self)@ == (CatacombView { locker: old(self).locker && !drawn, ..old(self)@ }),
    {
        if !drawn {
            // Create artificial VBlank if renderer didn't draw.
            Rendered::Redraw
        } else if self.locker {
            // Update session lock after successful draw.
            self.locker = false;
            Rendered::Lock
        } else {
            Rendered::Done
        }
    }

    /// Get the last focused surface.
    pub fn last_focus(&self) -> (focus: Option<WindowId>)
        ensures
            focus == self.last_focus,
    {
        self.last_focus
    }

    /// Start rendering again if we're currently stalled.
    pub fn unstall(&mut self, now: u64) -> (frame: Option<Frame>)
        ensures
            final(self)@ == old(self)@.unstall(now),
            frame == old(self)@.unstalled(now),
    {
        if self.stalled {
            Some(self.create_frame(now))
        } else {
            None
        }
    }

    /// Completely redraw the screen, ignoring damage.
    ///
    /// The `ignore_unstalled` flag controls whether an immediate redraw
    /// should be performed even if the rendering hasn't stalled.
    pub fn force_redraw(&mut self, now: u64, ignore_unstalled: bool) -> (frame: Option<Frame>)
        ensures
            ({
                let dirty = CatacombView {
                    windows: WindowsView { dirty: true, ..old(self)@.windows },
                    ..old(self)@
                };
                if ignore_unstalled || old(self).stalled {
                    &&& final(self)@ == dirty.create_frame(now)
                    &&& frame == Some(dirty.frame(now))
                    &&& !old(self).sleeping ==> dirty.draw(now) == Draw::Render
                } else {
                    &&& final(self)@ == dirty
                    &&& frame.is_none()
                }
            }),
    {
        self.windows.set_dirty();
        if ignore_unstalled || self.stalled {
            Some(self.create_frame(now))
        } else {
            None
        }
    }

    /// Set output power mode; tells whether the device is to report its
    /// orientation from now on.
    pub fn set_sleep(&mut self, sleep: bool) -> (report_orientation: bool)
        ensures
            final(self)@ == (CatacombView { sleeping: sleep, ..old(self)@ }),
            report_orientation == (!sleep && !old(self)@.windows.orientation_locked),
    {
        self.sleeping = sleep;

        // Pause accelerometer checks during sleep.
        !sleep && !self.windows.orientation_locked()
    }

    /// Lock the output's orientation.
    pub fn lock_orientation(&mut self, now: u64, orientation: Option<Orientation>) -> (frame: Option<
        Frame,
    >)
        ensures
            ({
                let locked = CatacombView {
                    windows: old(self)@.windows.lock_orientation(now, orientation),
                    ..old(self)@
                };
                &&& final(self)@ == locked.unstall(now)
                &&& frame == locked.unstalled(now)
            }),
    {
        self.windows.lock_orientation(now, orientation);
        self.unstall(now)
    }

    /// Unlock the output's orientation.
    pub fn unlock_orientation(&mut self, now: u64) -> (frame: Option<Frame>)
        ensures
            ({
                let unlocked = CatacombView {
                    windows: old(self)@.windows.unlock_orientation(now),
                    ..old(self)@
                };
                &&& final(self)@ == unlocked.unstall(now)
                &&& frame == unlocked.unstalled(now)
            }),
    {
        self.windows.unlock_orientation(now);
        self.unstall(now)
    }

    /// Toggle IME force enable/disable.
    pub fn toggle_ime_override(&mut self) -> (state: Option<bool>)
        ensures
            state == toggled(old(self).ime_override),
            final(self)@ == (CatacombView { ime_override: state, ..old(self)@ }),
    {
        self.ime_override = match self.ime_override {
            None => Some(false),
            Some(false) => Some(true),
            Some(true) => None,
        };
        self.ime_override
    }

    /// Records that a surface keeps the output from going idle.
    pub fn inhibit(&mut self, surface: WindowId)
        ensures
            final(self)@ == (CatacombView {
                idle_inhibitors: old(self)@.idle_inhibitors.push(surface),
                ..old(self)@
            }),
    {
        self.idle_inhibitors.push(surface);
    }

    /// Records that a surface no longer keeps the output from going idle.
    pub fn uninhibit(&mut self, surface: WindowId)
        ensures
            final(self)@ == (CatacombView {
                idle_inhibitors: uninhibited(old(self)@.idle_inhibitors, surface),
                ..old(self)@
            }),
    {
        let count: usize = self.idle_inhibitors.len();
        let mut kept: Vec<WindowId> = Vec::new();
        let mut i: usize = 0;
        while i < count
            invariant
                i <= count,
                count == self.idle_inhibitors@.len(),
                self@ == old(self)@,
                kept@ == uninhibited(self.idle_inhibitors@.take(i as int), surface),
            decreases count - i,
        {
            let inhibitor = self.idle_inhibitors[i];
            proof {
                let all = self.idle_inhibitors@;
                assert(all.take(i + 1).drop_last() =~= all.take(i as int));
                assert(all.take(i + 1).last() == inhibitor);
            }
            if inhibitor != surface {
                kept.push(inhibitor);
            }
            i += 1;
        }
        assert(self.idle_inhibitors@.take(count as int) =~= self.idle_inhibitors@);
        self.idle_inhibitors = kept;
    }

    /// Decides whether an activation token is valid when it is created.
    pub fn token_created(&self, serial: Option<u32>, own_seat: bool, last_enter: Option<u32>) -> (valid:
        bool)
        ensures
            valid == (own_seat && match (serial, last_enter) {
                (Some(serial), Some(last_enter)) => no_older(serial, last_enter),
                _ => false,
            }),
    {
        token_created(serial, own_seat, last_enter)
    }

    /// Decides a request to activate `surface` with a token that is `age`
    /// milliseconds old and was made while `token_surface` had the focus.
    pub fn request_activation(
        &self,
        age: u64,
        token_surface: Option<WindowId>,
        surface: WindowId,
    ) -> (activation: Activation)
        ensures
            activation == spec_activation(age, token_surface, surface, self.last_focus),
    {
        // Ignore tokens which are too old.
        if age >= ACTIVATION_TIMEOUT {
            return Activation::Ignore;
        }
        // Select raise/urgency based on focus of the client which created the token.
        if token_surface == self.last_focus {
            Activation::Raise
        } else if Some(surface) != self.last_focus {
            Activation::Urgent
        } else {
            Activation::Ignore
        }
    }
}

} // verus!
