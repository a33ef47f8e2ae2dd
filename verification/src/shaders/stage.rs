//! Staging shaders: moving texel data between its encoded byte form and the
//! linear sample form that the paint shaders work on.
use vstd::prelude::*;

verus! {

/// The encoded word format that a staging shader translates.
#[derive(Clone, Copy, Debug, PartialEq, Eq, Structural, Hash)]
pub enum StageKind {
    /// Four 8-bit integer samples in one 32-bit word.
    R8uiX4,
    /// Two 16-bit integer samples in one 32-bit word.
    R16uiX2,
    /// One 32-bit integer sample per word.
    R32ui,
}

/// The sources of the staging shaders, by direction and word format.
#[derive(Clone, Debug)]
pub struct Shaders {
    pub decode_r8ui_x4: Vec<u8>,
    pub decode_r16ui_x2: Vec<u8>,
    pub decode_r32ui: Vec<u8>,
    pub encode_r8ui_x4: Vec<u8>,
    pub encode_r16ui_x2: Vec<u8>,
    pub encode_r32ui: Vec<u8>,
}

} // verus!
