//! Navigation core of a screen-based GUI shell: a UIKit-style stack of
//! controllers with modal overlay presentation, and a decoupled event
//! channel that lets deeply nested widgets request navigation changes
//! without holding an owning reference back to the stack that owns them.
//!
//! Rendering, font and theme asset loading, flexbox layout and window
//! bootstrap are collaborators outside this crate; this crate owns the
//! control flow: which controller is in front, which one receives update,
//! render and input each frame, and how button events turn into stack
//! transitions.

pub mod controller;
pub mod events;
pub mod nav;
pub mod theme;
