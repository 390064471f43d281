//! Values read from the OpenGL bindings.
//!
//! The bindings are generated from the Khronos registry when the `gl` crate is
//! built, so Verus cannot see the numbers. Each function here hands one
//! constant on and states the value that the registry gives it.

use vstd::prelude::*;

verus! {

/// The constant `gl::VERTEX_SHADER`: the registry defines it as `0x8B31`.
#[verifier::external_body]
pub(crate) fn vertex_shader_type() -> (value: u32)
    ensures
        value == 0x8B31,
{
    gl::VERTEX_SHADER
}

/// The constant `gl::FRAGMENT_SHADER`: the registry defines it as `0x8B30`.
#[verifier::external_body]
pub(crate) fn fragment_shader_type() -> (value: u32)
    ensures
        value == 0x8B30,
{
    gl::FRAGMENT_SHADER
}

/// The constant `gl::COMPILE_STATUS`: the registry defines it as `0x8B81`.
#[verifier::external_body]
pub(crate) fn compile_status_parameter() -> (value: u32)
    ensures
        value == 0x8B81,
{
    gl::COMPILE_STATUS
}

/// The constant `gl::LINK_STATUS`: the registry defines it as `0x8B82`.
#[verifier::external_body]
pub(crate) fn link_status_parameter() -> (value: u32)
    ensures
        value == 0x8B82,
{
    gl::LINK_STATUS
}

/// The constant `gl::TRUE`, widened to the integer type in which the driver
/// reports a status: the registry defines it as `1`.
#[verifier::external_body]
pub(crate) fn status_true() -> (value: i32)
    ensures
        value == 1,
{
    i32::from(gl::TRUE)
}

} // verus!
