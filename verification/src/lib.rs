//! A bounded counter driven by keyboard events, with a terminal panel that
//! shows it.
//!
//! [`app::App`] holds the counter and the exit flag. Events from
//! [`event`] move it as [`state`] says, refusals are values from [`error`],
//! and [`app::App::render`] draws the [`panel`] for the current state into a
//! [`frame::Frame`]. What holds of all of this, whatever the inputs, is
//! proved in [`laws`].

pub mod app;
pub mod error;
pub mod event;
pub mod frame;
pub mod laws;
pub mod panel;
pub mod state;

pub use crate::app::App;
