//! A windowing core without I/O: every decision that creating a window, routing
//! its messages and pumping the queue takes is made here, on plain values. The
//! caller performs each [`platform::PlatformRequest`] on the window system and
//! hands the answer back.

pub mod class;
pub mod creation;
pub mod error;
pub mod event;
pub mod native;
pub mod platform;
pub mod router;
pub mod runner;
pub mod scale;
pub mod text;
pub mod window;
