//! Shader property descriptors: the kinds of values and textures a material
//! can bind, and the byte size each value kind occupies in a GPU uniform
//! buffer.

use vstd::prelude::*;

verus! {

/// A value-typed shader property.
#[derive(Clone, Copy, PartialEq, Eq, Debug, Structural)]
pub enum ShaderPropertyType {
    Vec4,
    Mat4,
    U32,
}

/// A texture-typed shader property.
#[derive(Debug, Eq, PartialEq, Clone, Structural)]
pub enum ShaderTexturePropertyType {
    Texture,
    Sampler,
}

impl ShaderPropertyType {
    /// The byte size of one value of this kind: a vec4 holds four 4-byte
    /// floats, a mat4 sixteen, a u32 one 4-byte word.
    pub open spec fn spec_size(self) -> usize {
        match self {
            ShaderPropertyType::Mat4 => 64usize,
            ShaderPropertyType::Vec4 => 16usize,
            ShaderPropertyType::U32 => 4usize,
        }
    }

    /// The byte size of one value of this kind in a uniform buffer.
    pub fn get_size(&self) -> (r: usize)
        ensures
            r == self.spec_size(),
    {
        match *self {
            ShaderPropertyType::Mat4 => 16 * 4,
            ShaderPropertyType::Vec4 => 4 * 4,
            ShaderPropertyType::U32 => 4,
        }
    }
}

} // verus!
