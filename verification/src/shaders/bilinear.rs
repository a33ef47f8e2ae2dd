//! A bilinear function evaluated over the output image.
//!
//! For each color channel the parameters give the value at the corners of
//! the unit square; the shader interpolates them across the image.
use vstd::prelude::*;

use super::{le_words, extend_words};

verus! {

/// The corner coefficients of the bilinear function, per channel, as
/// single-precision bit patterns.
#[derive(Clone, Copy, Debug)]
pub struct ShaderData {
    pub u_min: [u32; 4],
    pub u_max: [u32; 4],
    pub v_min: [u32; 4],
    pub v_max: [u32; 4],
    pub uv_min: [u32; 4],
    pub uv_max: [u32; 4],
}

/// The bilinear construction shader.
#[derive(Clone, Copy, Debug)]
pub struct Shader {
    pub data: ShaderData,
}

impl ShaderData {
    /// A coordinate grid: the first channel runs along the width up to
    /// `width`, the second along the height up to `height`; the bounds are
    /// single-precision bit patterns.
    pub fn mgrid(width: u32, height: u32) -> (r: ShaderData)
        ensures
            r.u_min == [0u32, 0u32, 0u32, 0u32],
            r.u_max == [width, 0u32, 0u32, 0u32],
            r.v_min == [0u32, 0u32, 0u32, 0u32],
            r.v_max == [0u32, height, 0u32, 0u32],
            r.uv_min == [0u32, 0u32, 0u32, 0u32],
            r.uv_max == [0u32, 0u32, 0u32, 0u32],
    {
        ShaderData {
            u_min: [0, 0, 0, 0],
            u_max: [width, 0, 0, 0],
            v_min: [0, 0, 0, 0],
            v_max: [0, height, 0, 0],
            uv_min: [0, 0, 0, 0],
            uv_max: [0, 0, 0, 0],
        }
    }

    /// The std430 packing: the six coefficient vectors in declaration order.
    pub open spec fn spec_words(self) -> Seq<u32> {
        self.u_min@ + self.u_max@ + self.v_min@ + self.v_max@ + self.uv_min@ + self.uv_max@
    }

    /// Pack the coefficients as std430 data: six vec4 in declaration order.
    pub fn into_std430(&self) -> (r: Vec<u8>)
        ensures
            r@ == le_words(self.spec_words()),
    {
        let mut out: Vec<u8> = Vec::new();
        extend_words(&mut out, &self.u_min);
        extend_words(&mut out, &self.u_max);
        extend_words(&mut out, &self.v_min);
        extend_words(&mut out, &self.v_max);
        extend_words(&mut out, &self.uv_min);
        extend_words(&mut out, &self.uv_max);
        proof {
            crate::shaders::lemma_le_words_concat(self.u_min@, self.u_max@);
            crate::shaders::lemma_le_words_concat(self.u_min@ + self.u_max@, self.v_min@);
            crate::shaders::lemma_le_words_concat(
                self.u_min@ + self.u_max@ + self.v_min@,
                self.v_max@,
            );
            crate::shaders::lemma_le_words_concat(
                self.u_min@ + self.u_max@ + self.v_min@ + self.v_max@,
                self.uv_min@,
            );
            crate::shaders::lemma_le_words_concat(
                self.u_min@ + self.u_max@ + self.v_min@ + self.v_max@ + self.uv_min@,
                self.uv_max@,
            );
            assert(out@ =~= le_words(self.spec_words()));
        }
        out
    }
}

impl Shader {
    /// The packed uniform data of the shader.
    pub fn binary_data(&self) -> (r: Vec<u8>)
        ensures
            r@ == le_words(self.data.spec_words()),
    {
        self.data.into_std430()
    }
}

} // verus!
