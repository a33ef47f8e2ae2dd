//! Bundled shader collections.
//!
//! The compiler keys compiled modules by identity; the actual SPIR-V
//! sources are opaque blobs that the host hands in — decoded from a
//! serialized bundle, or baked into the embedding application — and that
//! the executor resolves through the linker bundle assembled here.
use vstd::prelude::*;

use crate::shaders::{stage, ShadersCore, ShadersStd};

verus! {

/// The shader collections an executor resolves compiled modules from.
pub struct Linker {
    /// The programs of the core language: buffer management and staging.
    pub core: ShadersCore,
    /// The programs of the built-in operations.
    pub std: ShadersStd,
}

/// Assemble a linker bundle from the two included collections.
pub fn from_included(core: ShadersCore, std_shaders: ShadersStd) -> (r: Linker)
    ensures
        r.core.vert_noop@ == core.vert_noop@,
        r.core.frag_copy@ == core.frag_copy@,
        r.core.frag_mix_rgba@ == core.frag_mix_rgba@,
        r.core.frag_linear@ == core.frag_linear@,
        r.std.bilinear@ == std_shaders.bilinear@,
        r.std.box3@ == std_shaders.box3@,
        r.std.oklab_encode@ == std_shaders.oklab_encode@,
        r.std.oklab_decode@ == std_shaders.oklab_decode@,
        r.std.srlab2_encode@ == std_shaders.srlab2_encode@,
        r.std.srlab2_decode@ == std_shaders.srlab2_decode@,
        r.std.palette@ == std_shaders.palette@,
        r.std.solid_rgb@ == std_shaders.solid_rgb@,
        r.std.inject@ == std_shaders.inject@,
        r.std.fractal_noise@ == std_shaders.fractal_noise@,
        r.std.distribution_normal2d@ == std_shaders.distribution_normal2d@,
        r.std.linear_color_transform@ == std_shaders.linear_color_transform@,
{
    Linker { core, std: std_shaders }
}

/// Assemble the staging shaders from their sources, one per direction and
/// encoded word format.
pub fn stage(
    decode_r8ui_x4: Vec<u8>,
    decode_r16ui_x2: Vec<u8>,
    decode_r32ui: Vec<u8>,
    encode_r8ui_x4: Vec<u8>,
    encode_r16ui_x2: Vec<u8>,
    encode_r32ui: Vec<u8>,
) -> (r: stage::Shaders)
    ensures
        r.decode_r8ui_x4@ == decode_r8ui_x4@,
        r.decode_r16ui_x2@ == decode_r16ui_x2@,
        r.decode_r32ui@ == decode_r32ui@,
        r.encode_r8ui_x4@ == encode_r8ui_x4@,
        r.encode_r16ui_x2@ == encode_r16ui_x2@,
        r.encode_r32ui@ == encode_r32ui@,
{
    stage::Shaders {
        decode_r8ui_x4,
        decode_r16ui_x2,
        decode_r32ui,
        encode_r8ui_x4,
        encode_r16ui_x2,
        encode_r32ui,
    }
}

/// Assemble the core shader collection from its sources.
pub fn included_shaders_core(
    vert_noop: Vec<u8>,
    frag_copy: Vec<u8>,
    frag_mix_rgba: Vec<u8>,
    frag_linear: Vec<u8>,
    staging: stage::Shaders,
) -> (r: ShadersCore)
    ensures
        r.vert_noop@ == vert_noop@,
        r.frag_copy@ == frag_copy@,
        r.frag_mix_rgba@ == frag_mix_rgba@,
        r.frag_linear@ == frag_linear@,
{
    ShadersCore { vert_noop, frag_copy, frag_mix_rgba, frag_linear, stage: staging }
}

/// Assemble the collection of built-in operation shaders from its sources.
pub fn included_shaders_std(
    bilinear: Vec<u8>,
    box3: Vec<u8>,
    distribution_normal2d: Vec<u8>,
    fractal_noise: Vec<u8>,
    inject: Vec<u8>,
    linear_color_transform: Vec<u8>,
    oklab_encode: Vec<u8>,
    oklab_decode: Vec<u8>,
    palette: Vec<u8>,
    solid_rgb: Vec<u8>,
    srlab2_encode: Vec<u8>,
    srlab2_decode: Vec<u8>,
) -> (r: ShadersStd)
    ensures
        r.bilinear@ == bilinear@,
        r.box3@ == box3@,
        r.distribution_normal2d@ == distribution_normal2d@,
        r.fractal_noise@ == fractal_noise@,
        r.inject@ == inject@,
        r.linear_color_transform@ == linear_color_transform@,
        r.oklab_encode@ == oklab_encode@,
        r.oklab_decode@ == oklab_decode@,
        r.palette@ == palette@,
        r.solid_rgb@ == solid_rgb@,
        r.srlab2_encode@ == srlab2_encode@,
        r.srlab2_decode@ == srlab2_decode@,
{
    ShadersStd {
        bilinear,
        box3,
        distribution_normal2d,
        fractal_noise,
        inject,
        linear_color_transform,
        oklab_encode,
        oklab_decode,
        palette,
        solid_rgb,
        srlab2_encode,
        srlab2_decode,
    }
}

} // verus!
