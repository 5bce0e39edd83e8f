use vstd::prelude::*;

verus! {

/// Type tag for a signed 8-bit component.
pub const GL_BYTE: u32 = 0x1400;

/// Type tag for an unsigned 8-bit component.
pub const GL_UNSIGNED_BYTE: u32 = 0x1401;

/// Type tag for a signed 16-bit component.
pub const GL_SHORT: u32 = 0x1402;

/// Type tag for an unsigned 16-bit component.
pub const GL_UNSIGNED_SHORT: u32 = 0x1403;

/// Type tag for a signed 32-bit component.
pub const GL_INT: u32 = 0x1404;

/// Type tag for an unsigned 32-bit component.
pub const GL_UNSIGNED_INT: u32 = 0x1405;

/// Type tag for a 32-bit floating-point component.
pub const GL_FLOAT: u32 = 0x1406;

/// Type tag for a 64-bit floating-point component.
pub const GL_DOUBLE: u32 = 0x140A;

/// The byte width of one component carrying the given type tag, or 0 for a
/// tag that names no component type.
pub open spec fn spec_component_size(type_tag: u32) -> nat {
    if type_tag == GL_BYTE || type_tag == GL_UNSIGNED_BYTE {
        1
    } else if type_tag == GL_SHORT || type_tag == GL_UNSIGNED_SHORT {
        2
    } else if type_tag == GL_INT || type_tag == GL_UNSIGNED_INT || type_tag == GL_FLOAT {
        4
    } else if type_tag == GL_DOUBLE {
        8
    } else {
        0
    }
}

/// Returns the byte width of one component of the given type tag.
pub fn component_size(type_tag: u32) -> (n: usize)
    ensures
        n == spec_component_size(type_tag),
{
    if type_tag == GL_BYTE || type_tag == GL_UNSIGNED_BYTE {
        1
    } else if type_tag == GL_SHORT || type_tag == GL_UNSIGNED_SHORT {
        2
    } else if type_tag == GL_INT || type_tag == GL_UNSIGNED_INT || type_tag == GL_FLOAT {
        4
    } else if type_tag == GL_DOUBLE {
        8
    } else {
        0
    }
}

/// Topology tag for a triangle list.
pub const GL_TRIANGLES: u32 = 0x0004;

/// Topology tag for a triangle strip.
pub const GL_TRIANGLE_STRIP: u32 = 0x0005;

/// Topology tag for a triangle fan.
pub const GL_TRIANGLE_FAN: u32 = 0x0006;

/// Diagnostic type tag for an error message.
pub const GL_DEBUG_TYPE_ERROR: u32 = 0x824C;

/// A 3-component float vector carried as IEEE-754 bit patterns, so that the
/// exact bytes that reach the device are pinned down.
#[derive(Clone, Copy, PartialEq, Eq, Structural, Debug)]
pub struct Vec3Bits {
    pub x: u32,
    pub y: u32,
    pub z: u32,
}

/// A 4-component float vector carried as IEEE-754 bit patterns.
#[derive(Clone, Copy, PartialEq, Eq, Structural, Debug)]
pub struct Vec4Bits {
    pub x: u32,
    pub y: u32,
    pub z: u32,
    pub w: u32,
}

/// A trait representing Rust types that correspond with device component types
pub trait OpenGLType {
    /// The device type tag for this component type.
    fn opengl_type() -> u32;
}

impl OpenGLType for u32 {
    fn opengl_type() -> (t: u32)
        ensures
            t == GL_UNSIGNED_INT,
    {
        GL_UNSIGNED_INT
    }
}

impl OpenGLType for i32 {
    fn opengl_type() -> (t: u32)
        ensures
            t == GL_INT,
    {
        GL_INT
    }
}

impl OpenGLType for u8 {
    fn opengl_type() -> (t: u32)
        ensures
            t == GL_UNSIGNED_BYTE,
    {
        GL_UNSIGNED_BYTE
    }
}

impl OpenGLType for u16 {
    fn opengl_type() -> (t: u32)
        ensures
            t == GL_UNSIGNED_SHORT,
    {
        GL_UNSIGNED_SHORT
    }
}

impl OpenGLType for i16 {
    fn opengl_type() -> (t: u32)
        ensures
            t == GL_SHORT,
    {
        GL_SHORT
    }
}

} // verus!
