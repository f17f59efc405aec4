//! The verified core of a window back-end: the bookkeeping that sits between
//! a native window's event queue and a framework that polls for one event at
//! a time.
//!
//! The native window itself stays with the caller. Whatever the caller reads
//! from it (a batch of pending events, the inner size) is handed to this
//! crate as plain values, and this crate decides what the framework gets.
pub mod batch;
pub mod delivery;
pub mod mapping;
pub mod window;

pub use crate::window::GlutinWindow;
