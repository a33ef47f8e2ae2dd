//! A convolution with a three-by-three box kernel.
use vstd::prelude::*;

use super::{le_words, extend_words};
use crate::matrix::RowMatrix;

verus! {

/// The box convolution shader: the kernel as a row-major matrix.
#[derive(Clone, Copy, Debug)]
pub struct Shader {
    pub matrix: RowMatrix,
}

impl Shader {
    /// Wrap a kernel matrix.
    pub fn new(matrix: RowMatrix) -> (r: Shader)
        ensures
            r.matrix == matrix,
    {
        Shader { matrix }
    }

    /// The packed uniform data: the kernel as a std140 `mat3x3`.
    pub fn binary_data(&self) -> (r: Vec<u8>)
        ensures
            r@ == le_words(self.matrix.into_mat3x3_std140_spec()@),
    {
        let words = self.matrix.into_mat3x3_std140();
        let mut out: Vec<u8> = Vec::new();
        extend_words(&mut out, &words);
        out
    }
}

} // verus!
