//! Conversion between CIE XYZ and the Oklab color space.
use vstd::prelude::*;

use super::{le_words, extend_words};
use crate::matrix::RowMatrix;

verus! {

/// Whether the shader encodes into, or decodes from, Oklab.
#[derive(Clone, Copy, Debug, PartialEq, Eq, Structural, Hash)]
pub enum Coding {
    Encode,
    Decode,
}

/// The Oklab conversion shader: the linear part of the transform between
/// the RGB working space and XYZ, and the direction of the conversion.
#[derive(Clone, Copy, Debug)]
pub struct Shader {
    pub xyz_transform: RowMatrix,
    pub direction: Coding,
}

impl Shader {
    /// An encoding shader from linear RGB, through XYZ, into Oklab.
    pub fn with_encode(matrix: RowMatrix) -> (r: Shader)
        ensures
            r.xyz_transform == matrix,
            r.direction == Coding::Encode,
    {
        Shader { xyz_transform: matrix, direction: Coding::Encode }
    }

    /// A decoding shader from Oklab, through XYZ, into linear RGB.
    pub fn with_decode(matrix: RowMatrix) -> (r: Shader)
        ensures
            r.xyz_transform == matrix,
            r.direction == Coding::Decode,
    {
        Shader { xyz_transform: matrix, direction: Coding::Decode }
    }

    /// The packed uniform data: the transform as a std140 `mat3x3`.
    pub fn binary_data(&self) -> (r: Vec<u8>)
        ensures
            r@ == le_words(self.xyz_transform.into_mat3x3_std140_spec()@),
    {
        let words = self.xyz_transform.into_mat3x3_std140();
        let mut out: Vec<u8> = Vec::new();
        extend_words(&mut out, &words);
        out
    }
}

} // verus!
