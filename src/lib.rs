//! A fixed-resolution pixel canvas shown on a resizable display surface, and
//! the pointer input that is routed through the same coordinate transform.
//!
//! All sizes are whole pixels and every zoom factor is an exact ratio of two
//! integers, so the coordinate mappings below are exact.

pub mod canvas;
pub mod compositor;
pub mod transform;
pub mod pointer;
pub mod touch;
pub mod mouse;
