//! Input handling and per-frame control logic for a small boat that is
//! steered by dragging a pointer across the screen.
//!
//! The host appends input to an [`events::EventQueue`] through the handlers
//! of [`events`].  Once per frame [`frame::begin_frame`] drains the queue into
//! the [`mapper::Controls`], which follow the drag gesture and keep what it
//! asks of the boat as an [`intent::Intent`].  All of this works on whole
//! pixels and is exact; turning an intent into angles, easing the boat
//! towards it and drawing are left to the program around the library.

pub mod events;
pub mod frame;
pub mod geometry;
pub mod intent;
pub mod mapper;
