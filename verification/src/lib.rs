//! Decision logic for bringing up an OpenGL window with one shader program.
//!
//! The crate holds everything that can be decided without touching the
//! graphics driver or the windowing system: how shader text becomes a
//! C string, in which order the driver is asked to build a program, how a
//! compile or link status is judged, and when the event loop ends.
//! A caller performs the native calls and hands their results back.

pub mod diagnostics;
pub mod events;
pub mod native;
pub mod shader;
pub mod source;
pub mod text;
pub mod window;
