//! A constant color repeated over every pixel.
use vstd::prelude::*;

use super::{le_words, extend_words};

verus! {

/// The four channel values of the color, as single-precision bit patterns.
#[derive(Clone, Copy, Debug)]
pub struct ShaderData(pub [u32; 4]);

/// The solid color construction shader.
#[derive(Clone, Copy, Debug)]
pub struct Shader {
    pub data: ShaderData,
}

impl Shader {
    /// A shader painting the given color.
    pub fn with_color(color: [u32; 4]) -> (r: Shader)
        ensures
            r.data.0 == color,
    {
        Shader { data: ShaderData(color) }
    }

    /// The packed uniform data: the four channel values.
    pub fn binary_data(&self) -> (r: Vec<u8>)
        ensures
            r@ == le_words(self.data.0@),
    {
        let mut out: Vec<u8> = Vec::new();
        extend_words(&mut out, &self.data.0);
        out
    }
}

} // verus!
