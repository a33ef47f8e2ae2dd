//! Replace one channel of an image with a channel of another.
use vstd::prelude::*;

use super::{le_words, extend_words};

verus! {

/// The injection shader data, as single-precision bit patterns.
#[derive(Clone, Copy, Debug)]
pub struct ShaderData {
    /// One-hot selection of the channel to replace in the background.
    pub mix: [u32; 4],
    /// How the injected value is read from the foreground, by dot product.
    pub color: [u32; 4],
}

/// The injection shader.
#[derive(Clone, Copy, Debug)]
pub struct Shader {
    pub data: ShaderData,
}

impl Shader {
    /// The packing: the selection vector, then the color weights.
    pub open spec fn spec_words(self) -> Seq<u32> {
        self.data.mix@ + self.data.color@
    }

    /// The packed uniform data of the shader.
    pub fn binary_data(&self) -> (r: Vec<u8>)
        ensures
            r@ == le_words(self.spec_words()),
    {
        let mut out: Vec<u8> = Vec::new();
        extend_words(&mut out, &self.data.mix);
        extend_words(&mut out, &self.data.color);
        proof {
            crate::shaders::lemma_le_words_concat(self.data.mix@, self.data.color@);
            assert(out@ =~= le_words(self.spec_words()));
        }
        out
    }
}

} // verus!
