//! The bit-level encoding of single pixels.
//!
//! A texel couples a sample layout — which channels are present, in which
//! order — with the bit widths in which they are stored. The compiler reads
//! only the byte size, the component count and the channel structure of a
//! texel; everything here is that data, held as plain enumerations.
use vstd::prelude::*;

verus! {

/// The number and width of the samples stored for one pixel.
#[derive(Clone, Copy, Debug, PartialEq, Eq, Structural, Hash)]
pub enum SampleBits {
    /// A single 8-bit signed integer.
    Int8,
    /// A single 8-bit integer.
    UInt8,
    /// Two 8-bit integers.
    UInt8x2,
    /// Three 8-bit integers.
    UInt8x3,
    /// Four 8-bit integers.
    UInt8x4,
    /// A single 16-bit signed integer.
    Int16,
    /// A single 16-bit integer.
    UInt16,
    /// Two 16-bit integers.
    UInt16x2,
    /// Three 16-bit integers.
    UInt16x3,
    /// Four 16-bit integers.
    UInt16x4,
    /// A single 32-bit floating-point sample.
    Float32,
    /// Two 32-bit floating-point samples.
    Float32x2,
    /// Three 32-bit floating-point samples.
    Float32x3,
    /// Four 32-bit floating-point samples.
    Float32x4,
}

/// Which values are encoded by the samples of a texel.
#[derive(Clone, Copy, Debug, PartialEq, Eq, Structural, Hash)]
pub enum SampleParts {
    /// A single alpha sample.
    A,
    /// A single red sample.
    R,
    /// A single green sample.
    G,
    /// A single blue sample.
    B,
    /// A single luminance sample.
    Luma,
    /// Luminance then alpha.
    LumaA,
    /// Red, green, blue.
    Rgb,
    /// Blue, green, red.
    Bgr,
    /// Red, green, blue, alpha.
    RgbA,
    /// Blue, green, red, alpha.
    BgrA,
    /// Alpha, red, green, blue.
    ARgb,
    /// Alpha, blue, green, red.
    ABgr,
}

/// A channel of a color representation.
#[derive(Clone, Copy, Debug, PartialEq, Eq, Structural, Hash)]
pub enum ColorChannel {
    /// The weight of the red primary.
    R,
    /// The weight of the green primary.
    G,
    /// The weight of the blue primary.
    B,
    /// A luminescence.
    Luma,
    /// An alpha, or translucence, component.
    Alpha,
}

/// The position of a color channel in the linear, shader-visible vec4 of a
/// sampled texture.
#[derive(Clone, Copy, Debug, PartialEq, Eq, Structural, Hash)]
pub enum ChannelPosition {
    First,
    Second,
    Third,
    Fourth,
}

/// The bit-level encoding of one pixel.
#[derive(Clone, Copy, Debug, PartialEq, Eq, Structural, Hash)]
pub struct Texel {
    /// How the values are encoded as bits in the bytes.
    pub bits: SampleBits,
    /// Which values are encoded, which controls the applicable color spaces.
    pub parts: SampleParts,
}

impl SampleBits {
    /// The number of bytes of one texel with these samples.
    pub open spec fn spec_bytes(self) -> u16 {
        match self {
            SampleBits::Int8 | SampleBits::UInt8 => 1,
            SampleBits::UInt8x2 | SampleBits::Int16 | SampleBits::UInt16 => 2,
            SampleBits::UInt8x3 => 3,
            SampleBits::UInt8x4 | SampleBits::UInt16x2 | SampleBits::Float32 => 4,
            SampleBits::UInt16x3 => 6,
            SampleBits::UInt16x4 | SampleBits::Float32x2 => 8,
            SampleBits::Float32x3 => 12,
            SampleBits::Float32x4 => 16,
        }
    }

    /// Determine the number of bytes for texels containing these samples.
    pub fn bytes(self) -> (r: u16)
        ensures
            r == self.spec_bytes(),
    {
        match self {
            SampleBits::Int8 | SampleBits::UInt8 => 1,
            SampleBits::UInt8x2 | SampleBits::Int16 | SampleBits::UInt16 => 2,
            SampleBits::UInt8x3 => 3,
            SampleBits::UInt8x4 | SampleBits::UInt16x2 | SampleBits::Float32 => 4,
            SampleBits::UInt16x3 => 6,
            SampleBits::UInt16x4 | SampleBits::Float32x2 => 8,
            SampleBits::Float32x3 => 12,
            SampleBits::Float32x4 => 16,
        }
    }

    /// The encoding of one sample of the same width as these, where all
    /// samples are stored in separate whole bytes.
    pub open spec fn spec_single(self) -> Option<SampleBits> {
        match self {
            SampleBits::Int8 => Some(SampleBits::Int8),
            SampleBits::UInt8
            | SampleBits::UInt8x2
            | SampleBits::UInt8x3
            | SampleBits::UInt8x4 => Some(SampleBits::UInt8),
            SampleBits::Int16 => Some(SampleBits::Int16),
            SampleBits::UInt16
            | SampleBits::UInt16x2
            | SampleBits::UInt16x3
            | SampleBits::UInt16x4 => Some(SampleBits::UInt16),
            SampleBits::Float32
            | SampleBits::Float32x2
            | SampleBits::Float32x3
            | SampleBits::Float32x4 => Some(SampleBits::Float32),
        }
    }

    /// Reduce to a single sample of the same width.
    pub fn single(self) -> (r: Option<SampleBits>)
        ensures
            r == self.spec_single(),
    {
        match self {
            SampleBits::Int8 => Some(SampleBits::Int8),
            SampleBits::UInt8
            | SampleBits::UInt8x2
            | SampleBits::UInt8x3
            | SampleBits::UInt8x4 => Some(SampleBits::UInt8),
            SampleBits::Int16 => Some(SampleBits::Int16),
            SampleBits::UInt16
            | SampleBits::UInt16x2
            | SampleBits::UInt16x3
            | SampleBits::UInt16x4 => Some(SampleBits::UInt16),
            SampleBits::Float32
            | SampleBits::Float32x2
            | SampleBits::Float32x3
            | SampleBits::Float32x4 => Some(SampleBits::Float32),
        }
    }
}

impl SampleParts {
    /// The number of channels that are present.
    pub open spec fn spec_num_components(self) -> u8 {
        match self {
            SampleParts::A
            | SampleParts::R
            | SampleParts::G
            | SampleParts::B
            | SampleParts::Luma => 1,
            SampleParts::LumaA => 2,
            SampleParts::Rgb | SampleParts::Bgr => 3,
            SampleParts::RgbA | SampleParts::BgrA | SampleParts::ARgb | SampleParts::ABgr => 4,
        }
    }

    /// The number of channels that are present.
    pub fn num_components(self) -> (r: u8)
        ensures
            r == self.spec_num_components(),
    {
        match self {
            SampleParts::A
            | SampleParts::R
            | SampleParts::G
            | SampleParts::B
            | SampleParts::Luma => 1,
            SampleParts::LumaA => 2,
            SampleParts::Rgb | SampleParts::Bgr => 3,
            SampleParts::RgbA | SampleParts::BgrA | SampleParts::ARgb | SampleParts::ABgr => 4,
        }
    }

    /// The parts that keep a single channel of an RGB-ish layout, or nothing
    /// where the channel is not present or can not stand alone.
    pub open spec fn spec_with_channel(self, ch: ColorChannel) -> Option<SampleParts> {
        match self {
            SampleParts::Rgb | SampleParts::Bgr => match ch {
                ColorChannel::R => Some(SampleParts::R),
                ColorChannel::G => Some(SampleParts::G),
                ColorChannel::B => Some(SampleParts::B),
                _ => None,
            },
            SampleParts::RgbA | SampleParts::BgrA | SampleParts::ARgb | SampleParts::ABgr => {
                match ch {
                    ColorChannel::R => Some(SampleParts::R),
                    ColorChannel::G => Some(SampleParts::G),
                    ColorChannel::B => Some(SampleParts::B),
                    ColorChannel::Alpha => Some(SampleParts::A),
                    _ => None,
                }
            },
            _ => None,
        }
    }

    /// Extract a single channel, as if part of the color model these parts
    /// were constructed for.
    pub fn with_channel(self, ch: ColorChannel) -> (r: Option<SampleParts>)
        ensures
            r == self.spec_with_channel(ch),
    {
        match self {
            SampleParts::Rgb | SampleParts::Bgr => match ch {
                ColorChannel::R => Some(SampleParts::R),
                ColorChannel::G => Some(SampleParts::G),
                ColorChannel::B => Some(SampleParts::B),
                _ => None,
            },
            SampleParts::RgbA | SampleParts::BgrA | SampleParts::ARgb | SampleParts::ABgr => {
                match ch {
                    ColorChannel::R => Some(SampleParts::R),
                    ColorChannel::G => Some(SampleParts::G),
                    ColorChannel::B => Some(SampleParts::B),
                    ColorChannel::Alpha => Some(SampleParts::A),
                    _ => None,
                }
            },
            _ => None,
        }
    }
}

impl ChannelPosition {
    /// Find the channel index in the normalized, linear representation of a
    /// color: the position within the vec4 loaded from the sampled texture.
    pub fn new(channel: ColorChannel) -> (r: Option<ChannelPosition>)
        ensures
            r == (match channel {
                ColorChannel::R => Some(ChannelPosition::First),
                ColorChannel::G => Some(ChannelPosition::Second),
                ColorChannel::B => Some(ChannelPosition::Third),
                _ => None::<ChannelPosition>,
            }),
    {
        match channel {
            ColorChannel::R => Some(ChannelPosition::First),
            ColorChannel::G => Some(ChannelPosition::Second),
            ColorChannel::B => Some(ChannelPosition::Third),
            _ => None,
        }
    }

    /// The index into the linear vec4.
    pub open spec fn spec_index(self) -> int {
        match self {
            ChannelPosition::First => 0,
            ChannelPosition::Second => 1,
            ChannelPosition::Third => 2,
            ChannelPosition::Fourth => 3,
        }
    }

    /// A one-hot selection vector for this position, as single-precision bit
    /// patterns: one at the position, zero elsewhere.
    pub fn into_vec4(self) -> (r: [u32; 4])
        ensures
            forall|i: int|
                0 <= i < 4 ==> r[i] == if i == self.spec_index() {
                    crate::fp32::F32_ONE as int
                } else {
                    0
                },
    {
        match self {
            ChannelPosition::First => [crate::fp32::F32_ONE, 0, 0, 0],
            ChannelPosition::Second => [0, crate::fp32::F32_ONE, 0, 0],
            ChannelPosition::Third => [0, 0, crate::fp32::F32_ONE, 0],
            ChannelPosition::Fourth => [0, 0, 0, crate::fp32::F32_ONE],
        }
    }
}

impl Texel {
    /// A texel of 8-bit integer samples for the given parts.
    pub fn new_u8(parts: SampleParts) -> (r: Texel)
        ensures
            r.parts == parts,
            r.bits == (match parts.spec_num_components() {
                1u8 => SampleBits::UInt8,
                2u8 => SampleBits::UInt8x2,
                3u8 => SampleBits::UInt8x3,
                _ => SampleBits::UInt8x4,
            }),
    {
        let bits = match parts.num_components() {
            1 => SampleBits::UInt8,
            2 => SampleBits::UInt8x2,
            3 => SampleBits::UInt8x3,
            _ => SampleBits::UInt8x4,
        };
        Texel { bits, parts }
    }

    /// A texel of 16-bit integer samples for the given parts.
    pub fn new_u16(parts: SampleParts) -> (r: Texel)
        ensures
            r.parts == parts,
            r.bits == (match parts.spec_num_components() {
                1u8 => SampleBits::UInt16,
                2u8 => SampleBits::UInt16x2,
                3u8 => SampleBits::UInt16x3,
                _ => SampleBits::UInt16x4,
            }),
    {
        let bits = match parts.num_components() {
            1 => SampleBits::UInt16,
            2 => SampleBits::UInt16x2,
            3 => SampleBits::UInt16x3,
            _ => SampleBits::UInt16x4,
        };
        Texel { bits, parts }
    }

    /// The number of bytes of one texel.
    pub open spec fn spec_bytes(self) -> u16 {
        self.bits.spec_bytes()
    }

    /// What `channel_texel` returns: the single-channel texel for `channel`.
    pub open spec fn spec_channel_texel(self, channel: ColorChannel) -> Option<Texel> {
        match self.parts.spec_with_channel(channel) {
            Some(parts) => match self.bits.spec_single() {
                Some(bits) => Some(Texel { bits, parts }),
                None => None,
            },
            None => None,
        }
    }

    /// Get the texel describing a single channel.
    ///
    /// Returns nothing when the channel is not contained, or when it can not
    /// be extracted on its own.
    pub fn channel_texel(&self, channel: ColorChannel) -> (r: Option<Texel>)
        ensures
            r == self.spec_channel_texel(channel),
    {
        let parts = match self.parts.with_channel(channel) {
            Some(parts) => parts,
            None => {
                return None;
            },
        };
        let bits = match self.bits.single() {
            Some(bits) => bits,
            None => {
                return None;
            },
        };
        Some(Texel { bits, parts })
    }

    /// What `channel_weight_vec4` returns: for a texel holding exactly one
    /// channel, the one-hot weight vector selecting that channel from the
    /// linear vec4 representation; nothing for texels of several channels.
    pub open spec fn spec_channel_weight_vec4(self) -> Option<[u32; 4]> {
        let one = crate::fp32::F32_ONE;
        match self.parts {
            SampleParts::R | SampleParts::Luma | SampleParts::A => Some([one, 0, 0, 0]),
            SampleParts::G => Some([0, one, 0, 0]),
            SampleParts::B => Some([0, 0, one, 0]),
            _ => None,
        }
    }

    /// The weights with which the single channel of this texel is read from
    /// its linear vec4 representation, by dot product.
    ///
    /// An alpha or luminance channel is loaded in the first component of the
    /// vec4 of its single-channel texture, as the red channel is.
    pub fn channel_weight_vec4(&self) -> (r: Option<[u32; 4]>)
        ensures
            r == self.spec_channel_weight_vec4(),
    {
        let one = crate::fp32::F32_ONE;
        match self.parts {
            SampleParts::R | SampleParts::Luma | SampleParts::A => Some([one, 0, 0, 0]),
            SampleParts::G => Some([0, one, 0, 0]),
            SampleParts::B => Some([0, 0, one, 0]),
            _ => None,
        }
    }
}

} // verus!
