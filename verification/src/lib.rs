//! The host side of an interactive drawing canvas.
//!
//! The heart of the crate is `resources::buffer`: a typed host-side mirror
//! of a growable device buffer that decides, when a batch of appends ends,
//! whether the device buffer can be brought up to date by a partial write or
//! has to be replaced by a larger one, and `resources::consistency`, which
//! says what that keeps true between the two. Around it stand the glyph
//! lookup of a bitmap font, the canvas's answers to the events of its window,
//! and a builder for pipeline descriptions.
//!
//! The crate never touches a device or a window: every operation that needs
//! one returns what its caller has to carry out.

pub mod canvas;
pub mod data;
pub mod resources;
pub mod utils;
