//! Fractal brownian noise, one independent dimension per color channel.
use vstd::prelude::*;

use super::{le_words, extend_words};

verus! {

/// The fractal noise shader parameters; fractional values are
/// single-precision bit patterns.
#[derive(Clone, Copy, Debug)]
pub struct Shader {
    /// The scale of the initial noise grid in UV coordinates.
    pub grid_scale: [u32; 2],
    /// The amplitude of the first octave.
    pub amplitude: u32,
    /// The gain applied to the amplitude of each further octave.
    pub gain: u32,
    /// How many octaves of noise are summed.
    pub num_octaves: u32,
}

impl Shader {
    /// The std430 packing: grid scale, amplitude, gain, octave count, padded
    /// to an even number of words.
    pub open spec fn spec_words(self) -> Seq<u32> {
        seq![
            self.grid_scale[0],
            self.grid_scale[1],
            self.amplitude,
            self.gain,
            self.num_octaves,
            0u32,
        ]
    }

    /// The packed uniform data of the shader.
    pub fn binary_data(&self) -> (r: Vec<u8>)
        ensures
            r@ == le_words(self.spec_words()),
    {
        let words: [u32; 6] = [
            self.grid_scale[0],
            self.grid_scale[1],
            self.amplitude,
            self.gain,
            self.num_octaves,
            0,
        ];
        let mut out: Vec<u8> = Vec::new();
        extend_words(&mut out, &words);
        proof {
            assert(words@ =~= self.spec_words());
        }
        out
    }
}

} // verus!
