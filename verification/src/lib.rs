//! Launch-argument resolution for a Minecraft-compatible game client.
//!
//! The crate turns a launch configuration, an authenticated session and the
//! facts of one game version into a launch plan: the runtime to start and the
//! ordered argument vector to start it with.  Every function carries a
//! contract over the mathematical view of its data.

pub mod options;
pub mod text;
pub mod variables;
pub mod runtime;
pub mod launcher;
pub mod plan;
pub mod laws;
