//! A two-dimensional normal distribution, painted over the whole target.
use vstd::prelude::*;

use super::{le_words, extend_words};

verus! {

/// The normal distribution shader: mean and the inverse of the covariance,
/// all entries as single-precision bit patterns.
#[derive(Clone, Copy, Debug)]
pub struct Shader {
    /// The mean of the distribution in UV coordinates.
    pub expectation: [u32; 2],
    /// The inverse covariance of the distribution, row-major two-by-two.
    pub covariance_inv: [u32; 4],
}

impl Shader {
    /// The std430 packing: mean, inverse covariance, padded to eight words.
    pub open spec fn spec_words(self) -> Seq<u32> {
        self.expectation@ + self.covariance_inv@ + seq![0u32, 0u32]
    }

    /// The packed uniform data of the shader.
    pub fn binary_data(&self) -> (r: Vec<u8>)
        ensures
            r@ == le_words(self.spec_words()),
    {
        let mut out: Vec<u8> = Vec::new();
        extend_words(&mut out, &self.expectation);
        extend_words(&mut out, &self.covariance_inv);
        let pad: [u32; 2] = [0, 0];
        extend_words(&mut out, &pad);
        proof {
            crate::shaders::lemma_le_words_concat(self.expectation@, self.covariance_inv@);
            crate::shaders::lemma_le_words_concat(
                self.expectation@ + self.covariance_inv@,
                pad@,
            );
            assert(pad@ =~= seq![0u32, 0u32]);
            assert(out@ =~= le_words(self.spec_words()));
        }
        out
    }
}

} // verus!
