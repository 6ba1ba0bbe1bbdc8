//! Running a user interface straight on a Linux framebuffer, without a display server: keyboard
//! and gamepad input from evdev, the EGL framebuffer surface, and the single full-screen window
//! that they serve.
//!
//! The library holds the decisions; performing them (files, ioctls, EGL, the event loop) is the
//! caller's part.

#![allow(unused_imports)]

pub mod client;
pub mod clock;
pub mod device;
pub mod egl;
pub mod evdev;
pub mod input;
pub mod key;
pub mod keyboard;
pub mod platform;
pub mod present;
pub mod text;
pub mod window;
