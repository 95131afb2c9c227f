//! The decisions of a program that keeps one window drawn: how the
//! presentable surface follows the window's size, what each outcome of a
//! render attempt asks of the loop, and what the fixed shape and its texture
//! look like in their buffers.
//!
//! The library touches neither window nor GPU. A driver hands it events and
//! outcomes as plain values and performs the action that comes back.

pub mod event;
pub mod laws;
pub mod state;
pub mod surface;
pub mod texture;
pub mod vertex_lib;
