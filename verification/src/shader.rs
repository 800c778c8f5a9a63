//! The scalar, vector and matrix types a shader accepts as vertex input.
//! Compiling and linking shader programs is graphics-backend work and lives
//! outside the core; only the size arithmetic of the data types is here.

use vstd::prelude::*;

verus! {

/// A shader input data type.
#[derive(Debug, Clone, Copy, PartialEq)]
pub enum ShaderDataType {
    Uint1,
    Uint2,
    Uint3,
    Uint4,
    Int1,
    Int2,
    Int3,
    Int4,
    Float1,
    Float2,
    Float3,
    Float4,
    Mat2f,
    Mat3f,
    Mat4f,
}

impl ShaderDataType {
    /// The number of scalar components this type carries.
    pub open spec fn spec_element_count(self) -> u32 {
        match self {
            ShaderDataType::Uint1 => 1,
            ShaderDataType::Uint2 => 2,
            ShaderDataType::Uint3 => 3,
            ShaderDataType::Uint4 => 4,
            ShaderDataType::Int1 => 1,
            ShaderDataType::Int2 => 2,
            ShaderDataType::Int3 => 3,
            ShaderDataType::Int4 => 4,
            ShaderDataType::Float1 => 1,
            ShaderDataType::Float2 => 2,
            ShaderDataType::Float3 => 3,
            ShaderDataType::Float4 => 4,
            ShaderDataType::Mat2f => 4,
            ShaderDataType::Mat3f => 9,
            ShaderDataType::Mat4f => 16,
        }
    }

    pub fn element_count(&self) -> (r: u32)
        ensures
            r == self.spec_element_count(),
    {
        match self {
            ShaderDataType::Uint1 => 1,
            ShaderDataType::Uint2 => 2,
            ShaderDataType::Uint3 => 3,
            ShaderDataType::Uint4 => 4,
            ShaderDataType::Int1 => 1,
            ShaderDataType::Int2 => 2,
            ShaderDataType::Int3 => 3,
            ShaderDataType::Int4 => 4,
            ShaderDataType::Float1 => 1,
            ShaderDataType::Float2 => 2,
            ShaderDataType::Float3 => 3,
            ShaderDataType::Float4 => 4,
            ShaderDataType::Mat2f => 4,
            ShaderDataType::Mat3f => 9,
            ShaderDataType::Mat4f => 16,
        }
    }

    /// The byte size of one value: every component is four bytes wide.
    pub fn size_bytes(&self) -> (r: u32)
        ensures
            r == 4 * self.spec_element_count(),
    {
        match self {
            ShaderDataType::Uint1 => 1 * 4,
            ShaderDataType::Uint2 => 2 * 4,
            ShaderDataType::Uint3 => 3 * 4,
            ShaderDataType::Uint4 => 4 * 4,
            ShaderDataType::Int1 => 1 * 4,
            ShaderDataType::Int2 => 2 * 4,
            ShaderDataType::Int3 => 3 * 4,
            ShaderDataType::Int4 => 4 * 4,
            ShaderDataType::Float1 => 1 * 4,
            ShaderDataType::Float2 => 2 * 4,
            ShaderDataType::Float3 => 3 * 4,
            ShaderDataType::Float4 => 4 * 4,
            ShaderDataType::Mat2f => 4 * 4,
            ShaderDataType::Mat3f => 9 * 4,
            ShaderDataType::Mat4f => 16 * 4,
        }
    }
}

} // verus!
