//! Game logic of a small arcade car racer: input mapping, driving decisions,
//! asset fallback state machines, particle timers and the ground grid layout.
//! Floating-point physics and rendering live in the application around it.

pub mod assets;
pub mod timing;
pub mod drive;
pub mod world;
