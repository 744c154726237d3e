//! The numeric codes of the OpenGL registry that the protocols use.
//!
//! The values are taken from the `gl` bindings at run time; each reader below
//! is trusted to return the value that the registry assigns to its name.

use vstd::prelude::*;

verus! {

/// Shader kind of the vertex stage (`GL_VERTEX_SHADER`).
pub const VERTEX_SHADER: u32 = 0x8B31;

/// Shader kind of the tessellation-control stage (`GL_TESS_CONTROL_SHADER`).
pub const TESS_CONTROL_SHADER: u32 = 0x8E88;

/// Shader kind of the tessellation-evaluation stage (`GL_TESS_EVALUATION_SHADER`).
pub const TESS_EVALUATION_SHADER: u32 = 0x8E87;

/// Shader kind of the geometry stage (`GL_GEOMETRY_SHADER`).
pub const GEOMETRY_SHADER: u32 = 0x8DD9;

/// Shader kind of the fragment stage (`GL_FRAGMENT_SHADER`).
pub const FRAGMENT_SHADER: u32 = 0x8B30;

/// Parameter name of a shader's compile status (`GL_COMPILE_STATUS`).
pub const COMPILE_STATUS: u32 = 0x8B81;

/// Parameter name of a program's link status (`GL_LINK_STATUS`).
pub const LINK_STATUS: u32 = 0x8B82;

/// Parameter name of the length of an info log (`GL_INFO_LOG_LENGTH`).
pub const INFO_LOG_LENGTH: u32 = 0x8B84;

/// The clean state of the driver's error flag (`GL_NO_ERROR`).
pub const NO_ERROR: u32 = 0;

/// The driver's boolean true (`GL_TRUE`).
pub const TRUE: u8 = 1;

/// The driver's boolean false (`GL_FALSE`).
pub const FALSE: u8 = 0;

/// The location that the driver reports for a name that is no active uniform.
pub const NOT_FOUND: i32 = -1;

/// Reads `gl::VERTEX_SHADER`; the bindings define it as 0x8B31.
#[verifier::external_body]
pub(crate) fn vertex_shader() -> (code: u32)
    ensures
        code == VERTEX_SHADER,
{
    gl::VERTEX_SHADER
}

/// Reads `gl::TESS_CONTROL_SHADER`; the bindings define it as 0x8E88.
#[verifier::external_body]
pub(crate) fn tess_control_shader() -> (code: u32)
    ensures
        code == TESS_CONTROL_SHADER,
{
    gl::TESS_CONTROL_SHADER
}

/// Reads `gl::TESS_EVALUATION_SHADER`; the bindings define it as 0x8E87.
#[verifier::external_body]
pub(crate) fn tess_evaluation_shader() -> (code: u32)
    ensures
        code == TESS_EVALUATION_SHADER,
{
    gl::TESS_EVALUATION_SHADER
}

/// Reads `gl::GEOMETRY_SHADER`; the bindings define it as 0x8DD9.
#[verifier::external_body]
pub(crate) fn geometry_shader() -> (code: u32)
    ensures
        code == GEOMETRY_SHADER,
{
    gl::GEOMETRY_SHADER
}

/// Reads `gl::FRAGMENT_SHADER`; the bindings define it as 0x8B30.
#[verifier::external_body]
pub(crate) fn fragment_shader() -> (code: u32)
    ensures
        code == FRAGMENT_SHADER,
{
    gl::FRAGMENT_SHADER
}

/// Reads `gl::COMPILE_STATUS`; the bindings define it as 0x8B81.
#[verifier::external_body]
pub(crate) fn compile_status() -> (code: u32)
    ensures
        code == COMPILE_STATUS,
{
    gl::COMPILE_STATUS
}

/// Reads `gl::LINK_STATUS`; the bindings define it as 0x8B82.
#[verifier::external_body]
pub(crate) fn link_status() -> (code: u32)
    ensures
        code == LINK_STATUS,
{
    gl::LINK_STATUS
}

/// Reads `gl::INFO_LOG_LENGTH`; the bindings define it as 0x8B84.
#[verifier::external_body]
pub(crate) fn info_log_length() -> (code: u32)
    ensures
        code == INFO_LOG_LENGTH,
{
    gl::INFO_LOG_LENGTH
}

/// Reads `gl::NO_ERROR`; the bindings define it as 0.
#[verifier::external_body]
pub(crate) fn no_error() -> (code: u32)
    ensures
        code == NO_ERROR,
{
    gl::NO_ERROR
}

/// Reads `gl::TRUE`; the bindings define it as 1.
#[verifier::external_body]
pub(crate) fn gl_true() -> (code: u8)
    ensures
        code == TRUE,
{
    gl::TRUE
}

/// Reads `gl::FALSE`; the bindings define it as 0.
#[verifier::external_body]
pub(crate) fn gl_false() -> (code: u8)
    ensures
        code == FALSE,
{
    gl::FALSE
}

/// Whether a status that the driver wrote into an integer is its boolean
/// true: the integer is narrowed to the driver's boolean type, which keeps its
/// low eight bits, and compared with `TRUE`.
pub open spec fn status_is_true(status: i32) -> bool {
    status as u8 == TRUE
}

/// Tells whether a queried status is the driver's boolean true.
pub fn is_true(status: i32) -> (yes: bool)
    ensures
        yes == status_is_true(status),
{
    #[verifier::truncate]
    (status as u8) == gl_true()
}

/// Whether an error flag read from the driver is clean.
pub open spec fn flag_is_clean(flag: u32) -> bool {
    flag == NO_ERROR
}

/// Tells whether an error flag read from the driver is clean.
pub fn is_clean(flag: u32) -> (yes: bool)
    ensures
        yes == flag_is_clean(flag),
{
    flag == no_error()
}

/// Only the low eight bits of a status decide: it is true exactly when they
/// hold the value one. In particular 1 is true and 0 is not.
pub proof fn lemma_status_low_byte(status: i32)
    ensures
        status_is_true(status) <==> status & 0xff == 1,
        status_is_true(1),
        !status_is_true(0),
{
    assert((status as u8 == 1u8) <==> (status & 0xff == 1)) by (bit_vector);
    assert(1i32 as u8 == 1u8) by (bit_vector);
    assert(0i32 as u8 != 1u8) by (bit_vector);
}

} // verus!
