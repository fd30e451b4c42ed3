//! Verified core of two desktop window-privacy toggles: excluding a window
//! from screen capture, and hiding a window from the taskbar or dock.
//!
//! The core decides, per platform, which native window-attribute writes
//! realize a requested state, in what order, and how the outcome of each
//! write maps to the result the caller sees. The hosting shell resolves the
//! native window handle, performs the decided writes, and feeds their
//! outcomes back; it holds no decision logic of its own.

pub mod capture;
pub mod controller;
pub mod platform;
pub mod text;
pub mod visibility;
