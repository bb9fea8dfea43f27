//! Window-management core of a Wayland compositor for mobile devices.
//!
//! The crate decides which windows are on the output, where they are placed
//! and how the change from one arrangement to the next is committed. It
//! draws nothing and talks to no client: the caller hands it plain values
//! (surface handles, positions in logical pixels, the time in milliseconds)
//! and performs what the crate records or returns.
//!
//! - [`windows`] is the entry point: it owns the layouts, the layer shell
//!   windows, the popups and the view, and stages every change of them in a
//!   transaction that [`windows::Windows::update_transaction`] applies once
//!   all windows have caught up or the deadline has passed.
//! - [`layout`] tiles the windows in layouts of a primary and a secondary
//!   window; [`layer`] keeps the layer shell windows; [`popup`] the popups.
//! - [`overview`] is the touch-driven overview of all layouts and the drag
//!   of a window out of it.
//! - [`catacomb`] decides what a frame tick does, [`idle_notify`] when
//!   clients are told that the user is idle, [`screencopy`] which part of
//!   the frame buffer a capture is about, and [`drawing`] what is drawn.
//! - [`output`], [`window`], [`geometry`], [`orientation`], [`gesture`],
//!   [`transaction`] and [`text`] hold the values that the others work on.
//! - [`laws`] states what holds across whole transactions.
//!
//! Positions and sizes are integers. The horizontal offset of the overview
//! and the scale of windows are kept in fixed point, see
//! [`overview::OFFSET_UNIT`] and [`overview::SCALE_UNIT`].

pub mod catacomb;
pub mod drawing;
pub mod geometry;
pub mod gesture;
pub mod idle_notify;
pub mod laws;
pub mod layer;
pub mod layout;
pub mod orientation;
pub mod output;
pub mod overview;
pub mod popup;
pub mod screencopy;
pub mod text;
pub mod transaction;
pub mod window;
pub mod windows;
