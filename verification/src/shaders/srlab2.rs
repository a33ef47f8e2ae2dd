//! Conversion between CIE XYZ and the SrLab2 color space.
use vstd::prelude::*;

use super::{le_words, extend_words};
use crate::color::{whitepoint_xyz, whitepoint_to_xyz, Illuminant};
use crate::matrix::RowMatrix;

verus! {

/// Whether the shader encodes into, or decodes from, SrLab2.
#[derive(Clone, Copy, Debug, PartialEq, Eq, Structural, Hash)]
pub enum Coding {
    Encode,
    Decode,
}

/// The SrLab2 conversion shader: the linear transform between the RGB
/// working space and XYZ, the reference illuminant, and the direction.
#[derive(Clone, Copy, Debug)]
pub struct Shader {
    pub matrix: RowMatrix,
    pub whitepoint: Illuminant,
    pub direction: Coding,
}

impl Shader {
    /// An encoding shader from linear RGB, through XYZ, into SrLab2.
    pub fn with_encode(matrix: RowMatrix, whitepoint: Illuminant) -> (r: Shader)
        ensures
            r.matrix == matrix,
            r.whitepoint == whitepoint,
            r.direction == Coding::Encode,
    {
        Shader { matrix, whitepoint, direction: Coding::Encode }
    }

    /// A decoding shader from SrLab2, through XYZ, into linear RGB.
    pub fn with_decode(matrix: RowMatrix, whitepoint: Illuminant) -> (r: Shader)
        ensures
            r.matrix == matrix,
            r.whitepoint == whitepoint,
            r.direction == Coding::Decode,
    {
        Shader { matrix, whitepoint, direction: Coding::Decode }
    }

    /// The packing: the whitepoint coordinates padded to one vec4, then the
    /// transform as a std140 `mat3x3`.
    pub open spec fn spec_words(self) -> Seq<u32> {
        whitepoint_xyz(self.whitepoint)@ + seq![0u32] + self.matrix.into_mat3x3_std140_spec()@
    }

    /// The packed uniform data of the shader.
    pub fn binary_data(&self) -> (r: Vec<u8>)
        ensures
            r@ == le_words(self.spec_words()),
    {
        let wp = whitepoint_to_xyz(self.whitepoint);
        let words = self.matrix.into_mat3x3_std140();
        let mut out: Vec<u8> = Vec::new();
        extend_words(&mut out, &wp);
        let pad: [u32; 1] = [0];
        extend_words(&mut out, &pad);
        extend_words(&mut out, &words);
        proof {
            crate::shaders::lemma_le_words_concat(wp@, pad@);
            crate::shaders::lemma_le_words_concat(wp@ + pad@, words@);
            assert(pad@ =~= seq![0u32]);
            assert(out@ =~= le_words(self.spec_words()));
        }
        out
    }
}

} // verus!
