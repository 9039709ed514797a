//! Verified core of a viewport orientation gizmo: a miniature axis widget
//! rendered into a corner of the screen that mirrors a tracked entity's
//! rotation and can react to mouse clicks on its axis meshes.
//!
//! This crate holds the decision logic of the widget on plain values:
//! where the canvas is placed and how large it is, what the gizmo's parts
//! look like, which axis a mouse click lands on, and how a cursor position
//! maps into the off-screen texture. A host adapter is expected to feed
//! these functions with values read from the rendering engine and to carry
//! their results back into it.

pub mod click_reaction;
pub mod gizmo_parts;
pub mod plugin;
