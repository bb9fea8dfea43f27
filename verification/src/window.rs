//! A client window, as far as its placement is concerned.

use vstd::prelude::*;
use crate::geometry::{Point, Rectangle, Size};
use crate::transaction::{armed, TransactionClock};

verus! {

/// Identity of a window: the handle of the client surface that it shows.
pub type WindowId = u64;

/// One client surface and the geometry that was agreed with its client.
///
/// A window is resized in two steps: the new geometry is requested and
/// stays pending until the change is applied, which waits for the client to
/// acknowledge the requested size or for the deadline.
#[derive(Clone, Copy, Debug, PartialEq, Eq, Structural)]
pub struct Window {
    /// Handle of the client surface.
    pub id: WindowId,
    /// Geometry that the window is shown with.
    pub rectangle: Rectangle,
    /// Geometry that was requested and is not applied yet.
    pub pending: Option<Rectangle>,
    /// Last size that the client acknowledged.
    pub acked: Size,
    /// Whether the client surface still exists.
    pub alive: bool,
    /// Whether the client was told that its surface is on the output.
    pub visible: bool,
    /// Whether the client was asked to fill the output.
    pub fullscreen: bool,
    /// Whether the client was told that it has the focus.
    pub activated: bool,
    /// Whether the surface changed since it was last drawn.
    pub dirty: bool,
}

/// Something that happens to a window by way of its surface.
#[derive(Clone, Copy, Debug, PartialEq, Eq, Structural)]
pub enum WindowChange {
    /// A new geometry is requested.
    Resize(Rectangle),
    /// The client is asked to fill the output, or released from it.
    Fullscreen(bool),
    /// The client is told that it has the focus, or that it lost it.
    Activated(bool),
    /// The client has committed a buffer of the given size.
    Commit(Size),
    /// The surface was drawn.
    Drawn,
    /// The surface was destroyed.
    Destroyed,
}

impl WindowChange {
    /// Whether the change starts a transaction.
    pub open spec fn spec_transactional(&self) -> bool {
        *self is Resize
    }

    /// Whether the change starts a transaction.
    #[verifier::when_used_as_spec(spec_transactional)]
    pub fn transactional(&self) -> (transactional: bool)
        ensures
            transactional == self.spec_transactional(),
    {
        match self {
            WindowChange::Resize(_) => true,
            _ => false,
        }
    }
}

impl Window {
    /// The window of a new surface: alive, not on screen yet and without
    /// any extent.
    pub open spec fn spec_new(id: WindowId) -> Window {
        Window {
            id,
            rectangle: Rectangle { loc: Point { x: 0, y: 0 }, size: Size { w: 0, h: 0 } },
            pending: None,
            acked: Size { w: 0, h: 0 },
            alive: true,
            visible: false,
            fullscreen: false,
            activated: false,
            dirty: false,
        }
    }

    /// The window of a new surface.
    #[verifier::when_used_as_spec(spec_new)]
    pub fn new(id: WindowId) -> (window: Self)
        ensures
            window == Window::spec_new(id),
    {
        Window {
            id,
            rectangle: Rectangle { loc: Point { x: 0, y: 0 }, size: Size { w: 0, h: 0 } },
            pending: None,
            acked: Size { w: 0, h: 0 },
            alive: true,
            visible: false,
            fullscreen: false,
            activated: false,
            dirty: false,
        }
    }

    /// The window after `rectangle` was requested for it.
    pub open spec fn resized(self, rectangle: Rectangle) -> Window {
        Window { pending: Some(rectangle), ..self }
    }

    /// The window after its client was told that it is on the output.
    pub open spec fn entered(self) -> Window {
        Window { visible: true, ..self }
    }

    /// The window after its client was told that it left the output.
    pub open spec fn left(self) -> Window {
        Window { visible: false, ..self }
    }

    /// The window after its surface was destroyed.
    pub open spec fn dead(self) -> Window {
        Window { alive: false, ..self }
    }

    /// The window after its pending geometry took effect; a window that
    /// it changes is to be drawn anew.
    pub open spec fn applied(self) -> Window {
        match self.pending {
            Some(rectangle) => Window {
                rectangle,
                pending: None,
                dirty: self.dirty || rectangle != self.rectangle,
                ..self
            },
            None => self,
        }
    }

    /// The window after `change` happened to it.
    pub open spec fn changed(self, change: WindowChange) -> Window {
        match change {
            WindowChange::Resize(rectangle) => self.resized(rectangle),
            WindowChange::Fullscreen(fullscreen) => Window { fullscreen, ..self },
            WindowChange::Activated(activated) => Window { activated, ..self },
            WindowChange::Commit(size) => Window { acked: size, dirty: true, ..self },
            WindowChange::Drawn => Window { dirty: false, ..self },
            WindowChange::Destroyed => self.dead(),
        }
    }

    /// Whether nothing is pending or the client has acknowledged the size
    /// that was requested last.
    pub open spec fn spec_transaction_done(&self) -> bool {
        match self.pending {
            Some(rectangle) => rectangle.size == self.acked,
            None => true,
        }
    }

    /// Requests a new geometry; this starts a transaction.
    pub fn set_dimensions(&mut self, clock: &mut TransactionClock, now: u64, rectangle: Rectangle)
        ensures
            *final(self) == old(self).resized(rectangle),
            final(clock)@ == armed(old(clock)@, now),
    {
        clock.start(now);
        self.pending = Some(rectangle);
    }

    /// Lets `change` happen to the window.
    pub fn change(&mut self, clock: &mut TransactionClock, now: u64, change: WindowChange)
        ensures
            *final(self) == old(self).changed(change),
            final(clock)@ == if change.spec_transactional() {
                armed(old(clock)@, now)
            } else {
                old(clock)@
            },
    {
        match change {
            WindowChange::Resize(rectangle) => self.set_dimensions(clock, now, rectangle),
            WindowChange::Fullscreen(fullscreen) => {
                self.fullscreen = fullscreen;
            },
            WindowChange::Activated(activated) => {
                self.activated = activated;
            },
            WindowChange::Commit(size) => {
                self.acked = size;
                self.dirty = true;
            },
            WindowChange::Drawn => {
                self.dirty = false;
            },
            WindowChange::Destroyed => self.kill(),
        }
    }

    /// Tells the client that its surface is on the output.
    pub fn enter(&mut self)
        ensures
            *final(self) == old(self).entered(),
    {
        self.visible = true;
    }

    /// Tells the client that its surface left the output.
    pub fn leave(&mut self)
        ensures
            *final(self) == old(self).left(),
    {
        self.visible = false;
    }

    /// Records that the surface was destroyed.
    pub fn kill(&mut self)
        ensures
            *final(self) == old(self).dead(),
    {
        self.alive = false;
    }

    /// Records the size that the client acknowledged.
    pub fn ack(&mut self, size: Size)
        ensures
            *final(self) == (Window { acked: size, ..*old(self) }),
    {
        self.acked = size;
    }

    /// Whether the client surface still exists.
    pub fn alive(&self) -> (alive: bool)
        ensures
            alive == self.alive,
    {
        self.alive
    }

    /// Whether the surface changed since it was last drawn.
    pub fn dirty(&self) -> (dirty: bool)
        ensures
            dirty == self.dirty,
    {
        self.dirty
    }

    /// Whether the window no longer holds up the transaction.
    #[verifier::when_used_as_spec(spec_transaction_done)]
    pub fn transaction_done(&self) -> (done: bool)
        ensures
            done == self.spec_transaction_done(),
    {
        match self.pending {
            Some(rectangle) => rectangle.size == self.acked,
            None => true,
        }
    }

    /// Lets the pending geometry take effect.
    pub fn apply_transaction(&mut self)
        ensures
            *final(self) == old(self).applied(),
    {
        match self.pending {
            Some(rectangle) => {
                if rectangle != self.rectangle {
                    self.dirty = true;
                }
                self.rectangle = rectangle;
                self.pending = None;
            },
            None => {},
        }
    }

    /// Whether the client has committed a buffer of another size than the
    /// window is shown with.
    pub open spec fn spec_pending_buffer_resize(&self) -> bool {
        self.acked != self.rectangle.size
    }

    /// Whether the client has committed a buffer of another size than the
    /// window is shown with.
    #[verifier::when_used_as_spec(spec_pending_buffer_resize)]
    pub fn pending_buffer_resize(&self) -> (pending: bool)
        ensures
            pending == self.spec_pending_buffer_resize(),
    {
        self.acked != self.rectangle.size
    }

    /// Whether `point` lies on the window as it is shown.
    pub open spec fn spec_contains(&self, point: Point) -> bool {
        self.rectangle.spec_contains(point)
    }

    /// Whether `point` lies on the window as it is shown.
    #[verifier::when_used_as_spec(spec_contains)]
    pub fn contains(&self, point: Point) -> (inside: bool)
        ensures
            inside == self.spec_contains(point),
    {
        self.rectangle.contains(point)
    }
}

} // verus!
