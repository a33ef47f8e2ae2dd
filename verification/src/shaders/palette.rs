//! Sample colors from a palette texture at coordinates taken from an image.
use vstd::prelude::*;

use super::{le_words, extend_words};

verus! {

/// The palette shader data: which channels of the index image drive each
/// texture coordinate, and the base coordinate of the sampling.
#[derive(Clone, Copy, Debug)]
pub struct ShaderData {
    /// Dot-product weights reading the width coordinate, bit patterns.
    pub x_coord: [u32; 4],
    /// Dot-product weights reading the height coordinate, bit patterns.
    pub y_coord: [u32; 4],
    /// The base coordinate for sampling along width.
    pub base_x: i32,
    /// The base coordinate for sampling along height.
    pub base_y: i32,
}

/// The palette sampling shader.
#[derive(Clone, Copy, Debug)]
pub struct Shader {
    pub data: ShaderData,
}

impl Shader {
    /// The packing: a `mat4x2` of the coordinate weights, interleaved per
    /// component.
    pub open spec fn spec_words(self) -> Seq<u32> {
        seq![
            self.data.x_coord[0],
            self.data.y_coord[0],
            self.data.x_coord[1],
            self.data.y_coord[1],
            self.data.x_coord[2],
            self.data.y_coord[2],
            self.data.x_coord[3],
            self.data.y_coord[3],
        ]
    }

    /// The packed uniform data of the shader.
    pub fn binary_data(&self) -> (r: Vec<u8>)
        ensures
            r@ == le_words(self.spec_words()),
    {
        let words: [u32; 8] = [
            self.data.x_coord[0],
            self.data.y_coord[0],
            self.data.x_coord[1],
            self.data.y_coord[1],
            self.data.x_coord[2],
            self.data.y_coord[2],
            self.data.x_coord[3],
            self.data.y_coord[3],
        ];
        let mut out: Vec<u8> = Vec::new();
        extend_words(&mut out, &words);
        proof {
            assert(words@ =~= self.spec_words());
        }
        out
    }
}

} // verus!
