//! The catalogue of built-in fragment shaders.
//!
//! Each shader family exposes an identity key — two invocations with equal
//! keys may share one compiled module — together with the std140/std430
//! packing of its uniform data and the number of texture operands it samples.
//! The SPIR-V sources themselves are opaque blobs held by a [`crate::bundle`]
//! collection and resolved by the executor through the key; only a
//! user-supplied [`ShaderInvocation`] carries its own source.
use vstd::prelude::*;

use crate::matrix::RowMatrix;

pub mod bilinear;
pub mod box3;
pub mod distribution_normal2d;
pub mod fractal_noise;
pub mod inject;
pub mod oklab;
pub mod palette;
pub mod solid_rgb;
pub mod srlab2;
pub mod stage;

pub use self::bilinear::Shader as Bilinear;
pub use self::distribution_normal2d::Shader as DistributionNormal2d;
pub use self::fractal_noise::Shader as FractalNoise;
pub use self::palette::Shader as PaletteShader;

verus! {

/// The four little-endian bytes of one word.
pub open spec fn le_bytes4(v: u32) -> Seq<u8> {
    seq![
        (v & 0xFF) as u8,
        ((v >> 8) & 0xFF) as u8,
        ((v >> 16) & 0xFF) as u8,
        ((v >> 24) & 0xFF) as u8,
    ]
}

/// The little-endian encoding of a sequence of words.
pub open spec fn le_words(s: Seq<u32>) -> Seq<u8>
    decreases s.len(),
{
    if s.len() == 0 {
        Seq::empty()
    } else {
        le_bytes4(s[0]) + le_words(s.drop_first())
    }
}

/// The encoding of concatenated words is the concatenation of the encodings.
pub proof fn lemma_le_words_concat(a: Seq<u32>, b: Seq<u32>)
    ensures
        le_words(a + b) == le_words(a) + le_words(b),
    decreases a.len(),
{
    if a.len() == 0 {
        assert(a + b =~= b);
        assert(le_words(a) + le_words(b) =~= le_words(b));
    } else {
        assert((a + b).drop_first() =~= a.drop_first() + b);
        assert((a + b)[0] == a[0]);
        lemma_le_words_concat(a.drop_first(), b);
        assert(le_words(a + b) =~= le_words(a) + le_words(b));
    }
}

/// Encoding words one by one appends their bytes.
pub proof fn lemma_le_words_push(s: Seq<u32>, v: u32)
    ensures
        le_words(s.push(v)) == le_words(s) + le_bytes4(v),
{
    lemma_le_words_concat(s, seq![v]);
    assert(s.push(v) =~= s + seq![v]);
    assert(seq![v].drop_first() =~= Seq::<u32>::empty());
    assert(le_words(Seq::<u32>::empty()) =~= Seq::<u8>::empty());
    assert(le_words(seq![v]) =~= le_bytes4(v));
}

/// Append the little-endian bytes of one word.
pub fn extend_word(out: &mut Vec<u8>, v: u32)
    ensures
        final(out)@ == old(out)@ + le_bytes4(v),
{
    out.push((v & 0xFF) as u8);
    out.push(((v >> 8) & 0xFF) as u8);
    out.push(((v >> 16) & 0xFF) as u8);
    out.push(((v >> 24) & 0xFF) as u8);
    proof {
        assert(out@ =~= old(out)@ + le_bytes4(v));
    }
}

/// Append the little-endian bytes of the given words.
pub fn extend_words(out: &mut Vec<u8>, words: &[u32])
    ensures
        final(out)@ == old(out)@ + le_words(words@),
{
    let ghost base = out@;
    let mut i: usize = 0;
    proof {
        assert(words@.take(0) =~= Seq::<u32>::empty());
    }
    while i < words.len()
        invariant
            i <= words.len(),
            out@ == base + le_words(words@.take(i as int)),
        decreases words.len() - i,
    {
        extend_word(out, words[i]);
        proof {
            assert(words@.take(i + 1) =~= words@.take(i as int).push(words@[i as int]));
            lemma_le_words_push(words@.take(i as int), words@[i as int]);
        }
        i = i + 1;
    }
    proof {
        assert(words@.take(words@.len() as int) =~= words@);
    }
}

/// The little-endian bytes of the given words, as a fresh vector.
pub fn le_bytes_of_words(words: &[u32]) -> (r: Vec<u8>)
    ensures
        r@ == le_words(words@),
{
    let mut out: Vec<u8> = Vec::new();
    extend_words(&mut out, words);
    out
}

/// Whether a conversion shader encodes into, or decodes from, its space.
#[derive(Clone, Copy, Debug, PartialEq, Eq, Structural, Hash)]
pub enum Direction {
    Encode,
    Decode,
}

/// All the programs needed for the core language: managing buffers and
/// moving between the byte and texture type systems.
#[derive(Clone, Debug)]
pub struct ShadersCore {
    pub vert_noop: Vec<u8>,
    pub frag_copy: Vec<u8>,
    pub frag_mix_rgba: Vec<u8>,
    pub frag_linear: Vec<u8>,
    pub stage: stage::Shaders,
}

/// The sources of the built-in operation shaders.
#[derive(Clone, Debug)]
pub struct ShadersStd {
    pub bilinear: Vec<u8>,
    pub box3: Vec<u8>,
    pub distribution_normal2d: Vec<u8>,
    pub fractal_noise: Vec<u8>,
    pub inject: Vec<u8>,
    pub linear_color_transform: Vec<u8>,
    pub oklab_encode: Vec<u8>,
    pub oklab_decode: Vec<u8>,
    pub palette: Vec<u8>,
    pub solid_rgb: Vec<u8>,
    pub srlab2_encode: Vec<u8>,
    pub srlab2_decode: Vec<u8>,
}

/// One instance of a user-supplied shader invocation.
#[derive(Clone, Debug)]
pub struct ShaderInvocation {
    /// The SPIR-V source, shared between all instances of this invocation.
    pub spirv: Vec<u8>,
    /// The packed uniform data of this specific invocation.
    pub shader_data: Option<Vec<u8>>,
    /// The number of image samplers the shader binds; the encoder matches it
    /// against the number of pushed operands.
    pub num_args: u32,
}

/// Identifies the vertex shading. A single quad is painted and all
/// coordinates are encoded in the vertex buffer.
#[derive(Clone, Copy, Debug, PartialEq, Eq, Structural, Hash)]
pub enum VertexShader {
    Noop,
}

/// Paint one texture over a target region.
#[derive(Clone, Copy, Debug, PartialEq, Eq, Structural, Hash)]
pub enum PaintOnTopKind {
    /// Copy the sampled texel.
    Copy,
}

/// A linear transformation applied to linear RGB samples.
#[derive(Clone, Copy, Debug)]
pub struct LinearColorTransform {
    pub matrix: RowMatrix,
}

/// The identity of a shader pipeline setup. Two invocations with the same
/// key share one compiled module and are never recompiled.
#[derive(Clone, Debug)]
pub enum FragmentShaderKey {
    PaintOnTop(PaintOnTopKind),
    /// A linear color transformation.
    LinearColorMatrix,
    /// The conversion of a texel format while staging.
    Convert(Direction, stage::StageKind),
    /// The generic two-dimensional normal distribution.
    DistributionNormal2d,
    /// Generic fractal brownian noise.
    FractalNoise,
    /// Sample discrete colors from a palette.
    Palette,
    /// A bilinear function of colors.
    Bilinear,
    /// A shader mixing two colors, injecting one channel into the other.
    Inject,
    /// A shader transforming between XYZ and Oklab color space.
    OklabTransform(Direction),
    /// A shader transforming between XYZ and SrLab2 color space.
    Srlab2Transform(Direction),
    /// A convolution with a three-by-three box function.
    Box3,
    /// A user-supplied module, addressed by the content of its source so
    /// that equal sources share their compilation.
    Dynamic(Vec<u8>),
}

/// One fragment shader invocation with everything the encoder reads of it.
#[derive(Clone, Debug)]
pub enum FragmentShaderInvocation {
    PaintOnTop(PaintOnTopKind),
    LinearColorMatrix(LinearColorTransform),
    Normal2d(DistributionNormal2d),
    FractalNoise(FractalNoise),
    Palette(palette::Shader),
    Bilinear(bilinear::Shader),
    Inject(inject::Shader),
    Oklab(oklab::Shader),
    SrLab2(srlab2::Shader),
    Box3(box3::Shader),
    SolidRgb(solid_rgb::Shader),
    Runtime(ShaderInvocation),
}

impl ShaderInvocation {
    /// The identity under which the module is cached: its source content.
    pub fn key(&self) -> (r: Option<FragmentShaderKey>)
        ensures
            r matches Some(k) && k matches FragmentShaderKey::Dynamic(s) && s@ == self.spirv@,
    {
        Some(FragmentShaderKey::Dynamic(self.spirv.clone()))
    }

    /// The SPIR-V source code.
    pub fn spirv_source(&self) -> (r: Vec<u8>)
        ensures
            r@ == self.spirv@,
    {
        self.spirv.clone()
    }

    /// The packed uniform data of this invocation, bytes as supplied.
    pub fn binary_data(&self) -> (r: Option<Vec<u8>>)
        ensures
            match r {
                Some(data) => self.shader_data matches Some(own) && data@ == own@,
                None => self.shader_data is None,
            },
    {
        match &self.shader_data {
            Some(data) => Some(data.clone()),
            None => None,
        }
    }

    /// The number of image samplers the shader binds.
    pub fn num_args(&self) -> (r: u32)
        ensures
            r == self.num_args,
    {
        self.num_args
    }
}

impl ShadersCore {
    /// The painting shader that copies the sampled texel.
    pub fn paint_copy(&self) -> (r: PaintOnTopKind)
        ensures
            r == PaintOnTopKind::Copy,
    {
        PaintOnTopKind::Copy
    }
}

impl FragmentShaderInvocation {
    /// The number of texture operands the shader samples: the number of
    /// `PushOperand` entries that the draw consuming it takes off the stack.
    pub open spec fn spec_num_args(self) -> u32 {
        match self {
            FragmentShaderInvocation::PaintOnTop(_) => 1,
            FragmentShaderInvocation::LinearColorMatrix(_) => 1,
            FragmentShaderInvocation::Normal2d(_) => 0,
            FragmentShaderInvocation::FractalNoise(_) => 0,
            FragmentShaderInvocation::Palette(_) => 2,
            FragmentShaderInvocation::Bilinear(_) => 0,
            FragmentShaderInvocation::Inject(_) => 2,
            FragmentShaderInvocation::Oklab(_) => 1,
            FragmentShaderInvocation::SrLab2(_) => 1,
            FragmentShaderInvocation::Box3(_) => 1,
            FragmentShaderInvocation::SolidRgb(_) => 0,
            FragmentShaderInvocation::Runtime(invocation) => invocation.num_args,
        }
    }

    /// The number of texture operands the shader samples.
    pub fn num_args(&self) -> (r: u32)
        ensures
            r == self.spec_num_args(),
    {
        match self {
            FragmentShaderInvocation::PaintOnTop(_) => 1,
            FragmentShaderInvocation::LinearColorMatrix(_) => 1,
            FragmentShaderInvocation::Normal2d(_) => 0,
            FragmentShaderInvocation::FractalNoise(_) => 0,
            FragmentShaderInvocation::Palette(_) => 2,
            FragmentShaderInvocation::Bilinear(_) => 0,
            FragmentShaderInvocation::Inject(_) => 2,
            FragmentShaderInvocation::Oklab(_) => 1,
            FragmentShaderInvocation::SrLab2(_) => 1,
            FragmentShaderInvocation::Box3(_) => 1,
            FragmentShaderInvocation::SolidRgb(_) => 0,
            FragmentShaderInvocation::Runtime(invocation) => invocation.num_args,
        }
    }

    /// The key under which the compiled module is cached, or nothing for a
    /// shader that inhibits caching. Equal keys share one compiled module,
    /// so the two directions of a conversion carry distinct keys.
    pub fn key(&self) -> (r: Option<FragmentShaderKey>)
        ensures
            match *self {
                FragmentShaderInvocation::PaintOnTop(kind) => r == Some(
                    FragmentShaderKey::PaintOnTop(kind),
                ),
                FragmentShaderInvocation::LinearColorMatrix(_) => r == Some(
                    FragmentShaderKey::LinearColorMatrix,
                ),
                FragmentShaderInvocation::Normal2d(_) => r == Some(
                    FragmentShaderKey::DistributionNormal2d,
                ),
                FragmentShaderInvocation::FractalNoise(_) => r == Some(
                    FragmentShaderKey::FractalNoise,
                ),
                FragmentShaderInvocation::Palette(_) => r == Some(FragmentShaderKey::Palette),
                FragmentShaderInvocation::Bilinear(_) => r == Some(FragmentShaderKey::Bilinear),
                FragmentShaderInvocation::Inject(_) => r == Some(FragmentShaderKey::Inject),
                FragmentShaderInvocation::Oklab(shader) => r == Some(
                    FragmentShaderKey::OklabTransform(
                        match shader.direction {
                            oklab::Coding::Encode => Direction::Encode,
                            oklab::Coding::Decode => Direction::Decode,
                        },
                    ),
                ),
                FragmentShaderInvocation::SrLab2(shader) => r == Some(
                    FragmentShaderKey::Srlab2Transform(
                        match shader.direction {
                            srlab2::Coding::Encode => Direction::Encode,
                            srlab2::Coding::Decode => Direction::Decode,
                        },
                    ),
                ),
                FragmentShaderInvocation::Box3(_) => r == Some(FragmentShaderKey::Box3),
                FragmentShaderInvocation::SolidRgb(_) => r is None,
                FragmentShaderInvocation::Runtime(invocation) => r matches Some(
                    FragmentShaderKey::Dynamic(content),
                ) && content@ == invocation.spirv@,
            },
    {
        match self {
            FragmentShaderInvocation::PaintOnTop(kind) => Some(
                FragmentShaderKey::PaintOnTop(*kind),
            ),
            FragmentShaderInvocation::LinearColorMatrix(_) => Some(
                FragmentShaderKey::LinearColorMatrix,
            ),
            FragmentShaderInvocation::Normal2d(_) => Some(FragmentShaderKey::DistributionNormal2d),
            FragmentShaderInvocation::FractalNoise(_) => Some(FragmentShaderKey::FractalNoise),
            FragmentShaderInvocation::Palette(_) => Some(FragmentShaderKey::Palette),
            FragmentShaderInvocation::Bilinear(_) => Some(FragmentShaderKey::Bilinear),
            FragmentShaderInvocation::Inject(_) => Some(FragmentShaderKey::Inject),
            FragmentShaderInvocation::Oklab(shader) => Some(
                FragmentShaderKey::OklabTransform(
                    match shader.direction {
                        oklab::Coding::Encode => Direction::Encode,
                        oklab::Coding::Decode => Direction::Decode,
                    },
                ),
            ),
            FragmentShaderInvocation::SrLab2(shader) => Some(
                FragmentShaderKey::Srlab2Transform(
                    match shader.direction {
                        srlab2::Coding::Encode => Direction::Encode,
                        srlab2::Coding::Decode => Direction::Decode,
                    },
                ),
            ),
            FragmentShaderInvocation::Box3(_) => Some(FragmentShaderKey::Box3),
            FragmentShaderInvocation::SolidRgb(_) => None,
            FragmentShaderInvocation::Runtime(invocation) => invocation.key(),
        }
    }
}

} // verus!
