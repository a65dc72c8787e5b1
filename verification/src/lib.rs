//! The logic of a magnifier ball that bounces over the desktop.
//!
//! A borderless window covers the screen and is cut down to a circle, the ball.
//! The ball moves and bounces off the edges of the screen; the desktop under it
//! is captured and shown through a lens that magnifies the middle and compresses
//! the rim; a click on the ball ends it.
//!
//! [`overlay::MagnifierApp`] runs a frame: it names one request after the other
//! and is told how each went. Nothing in this crate touches the window, the
//! screen or the mouse.

pub mod capture;
pub mod disc;
pub mod frame;
pub mod geometry;
pub mod lens;
pub mod motion;
pub mod overlay;
pub mod pixels;
pub mod pointer;
pub mod units;
pub mod window;
