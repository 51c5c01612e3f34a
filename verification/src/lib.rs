//! Core of a function plotter.
//!
//! A function is sampled once, column by column of the window, into a
//! cached polyline ([`renderer`]); the cached figures are then drawn
//! again in every frame until the window asks to quit ([`context`],
//! [`event`]). The library opens no window and draws nothing itself: it
//! tells its driver what to draw, and is told what happened.

pub mod context;
pub mod event;
pub mod graphable;
pub mod primitive;
pub mod renderer;
pub mod whole;
