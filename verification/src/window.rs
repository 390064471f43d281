//! What is asked of the windowing system at start-up.

use crate::text::{decimal, decimal_string};
use vstd::prelude::*;

verus! {

/// An OpenGL profile.
#[derive(Clone, Copy, Debug, PartialEq, Eq, Structural)]
pub enum Profile {
    Core,
    Compatibility,
}

/// The context that is asked for.
#[derive(Clone, Copy, Debug, PartialEq, Eq, Structural)]
pub struct ContextAttributes {
    pub profile: Profile,
    pub major: u8,
    pub minor: u8,
}

/// The attributes to set before the window is made: core profile, version 3.1.
pub fn setup_opengl() -> (attributes: ContextAttributes)
    ensures
        attributes == (ContextAttributes { profile: Profile::Core, major: 3, minor: 1 }),
{
    ContextAttributes { profile: Profile::Core, major: 3, minor: 1 }
}

/// The line that reports the version which the system has accepted.
pub fn ready_message(major: u8, minor: u8) -> (text: String)
    ensures
        text@ == "OpenGL is ready (version "@ + decimal(major as nat) + "."@ + decimal(
            minor as nat,
        ) + ")"@,
{
    let mut text = String::from_str("OpenGL is ready (version ");
    let major_text = decimal_string(major);
    text.append(major_text.as_str());
    text.append(".");
    let minor_text = decimal_string(minor);
    text.append(minor_text.as_str());
    text.append(")");
    text
}

/// Size and placement of the window.
#[derive(Clone, Copy, Debug, PartialEq, Eq, Structural)]
pub struct WindowConfig {
    pub width: u32,
    pub height: u32,
    pub centered: bool,
}

/// The window: 640 by 480, centered on the screen.
pub fn window_config() -> (config: WindowConfig)
    ensures
        config == (WindowConfig { width: 640, height: 480, centered: true }),
{
    WindowConfig { width: 640, height: 480, centered: true }
}

/// The title of the window.
pub fn window_title() -> (title: &'static str)
    ensures
        title@ == "Rust OpenGL"@,
{
    "Rust OpenGL"
}

/// A colour in red, green and blue.
#[derive(Clone, Copy, Debug, PartialEq, Eq, Structural)]
pub struct Color {
    pub r: u8,
    pub g: u8,
    pub b: u8,
}

/// The colour that the canvas is cleared to: white.
pub fn clear_color() -> (color: Color)
    ensures
        color == (Color { r: 255, g: 255, b: 255 }),
{
    Color { r: 255, g: 255, b: 255 }
}

/// Frames shown per second.
pub const FRAMES_PER_SECOND: u32 = 60;

/// Nanoseconds to sleep after each frame: a second divided by the frame
/// rate, rounded down.
pub fn frame_interval_nanos() -> (nanos: u32)
    ensures
        nanos == 1_000_000_000int / (FRAMES_PER_SECOND as int),
        nanos == 16_666_666,
{
    1_000_000_000u32 / FRAMES_PER_SECOND
}

} // verus!
