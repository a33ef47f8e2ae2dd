//! Byte layouts and image descriptors.
//!
//! A descriptor couples a byte layout — width, height and strides of the
//! buffer holding an image — with the texel encoding and the color
//! interpretation of the data. A descriptor is consistent when the strides
//! agree with the texel size and the total size stays representable.
use vstd::prelude::*;

use crate::color::Color;
use crate::texel::Texel;

verus! {

/// How many bytes the rows of a transfer buffer are aligned to on the device.
pub const ROW_ALIGNMENT: u64 = 256;

/// The byte layout of an image buffer.
#[derive(Clone, Copy, Debug, PartialEq, Eq, Structural, Hash)]
pub struct ByteLayout {
    /// The width of the image in pixels.
    pub width: u32,
    /// The height of the image in pixels.
    pub height: u32,
    /// The number of bytes of one texel.
    pub texel_stride: u16,
    /// The number of bytes from the start of one row to the start of the next.
    pub row_stride: u64,
}

/// A complete image type: layout, texel encoding and color interpretation.
#[derive(Clone, Copy, Debug, PartialEq, Eq, Structural, Hash)]
pub struct Descriptor {
    /// The byte layout of the image data.
    pub layout: ByteLayout,
    /// The bit-level encoding of one pixel.
    pub texel: Texel,
    /// The colorimetric interpretation of the samples.
    pub color: Color,
}

/// The layout of an image in device transfer memory, each row padded to the
/// device row alignment.
#[derive(Clone, Copy, Debug, PartialEq, Eq, Structural, Hash)]
pub struct AlignedLayout {
    /// The height in rows.
    pub height: u32,
    /// The aligned number of bytes per row.
    pub row_stride: u64,
}

/// The pixel bytes of a row stay far below the `u64` range: the width is a
/// `u32` and the texel stride a `u16`.
proof fn lemma_stride_product_fits(width: u32, stride: u16)
    ensures
        width * stride <= 0xFFFF_FFFFu64 * 0xFFFFu64,
{
    assert(width * stride <= 0xFFFF_FFFFu64 * 0xFFFFu64) by (nonlinear_arith)
        requires
            width <= 0xFFFF_FFFFu32,
            stride <= 0xFFFFu16,
    ;
}

impl ByteLayout {
    /// The number of bytes the pixels of one row need, before padding.
    pub open spec fn spec_pixel_bytes(self) -> int {
        self.width * self.texel_stride
    }

    /// The total number of bytes of the buffer.
    pub open spec fn spec_len(self) -> int {
        self.height * self.row_stride
    }

    /// Rows hold all their pixels, and the total size fits in a `u64`.
    pub open spec fn spec_consistent_strides(self) -> bool {
        &&& self.spec_pixel_bytes() <= self.row_stride
        &&& self.spec_len() <= u64::MAX
    }
}

impl Descriptor {
    /// The layout agrees with the texel: the texel stride is the byte size of
    /// the texel, rows hold all their pixels, and the total size fits.
    pub open spec fn spec_consistent(self) -> bool {
        &&& self.layout.texel_stride == self.texel.spec_bytes()
        &&& self.layout.spec_consistent_strides()
    }

    /// Check that the descriptor is internally consistent.
    pub fn is_consistent(&self) -> (r: bool)
        ensures
            r == self.spec_consistent(),
    {
        proof {
            lemma_stride_product_fits(self.layout.width, self.layout.texel_stride);
        }
        let pixel_bytes = (self.layout.width as u64) * (self.layout.texel_stride as u64);
        self.layout.texel_stride == self.texel.bits.bytes() && pixel_bytes
            <= self.layout.row_stride && match (self.layout.height as u64).checked_mul(
            self.layout.row_stride,
        ) {
            Some(_) => true,
            None => false,
        }
    }

    /// The dimensions in pixels.
    pub fn size(&self) -> (r: (u32, u32))
        ensures
            r == (self.layout.width, self.layout.height),
    {
        (self.layout.width, self.layout.height)
    }

    /// The packed descriptor of a texel at the given dimensions: rows hold
    /// exactly their pixels, and the color is sRGB until overridden.
    ///
    /// Returns nothing exactly when the total byte size overflows a `u64`.
    pub fn with_texel(texel: Texel, width: u32, height: u32) -> (r: Option<Descriptor>)
        ensures
            match r {
                Some(desc) => {
                    &&& desc.layout.width == width
                    &&& desc.layout.height == height
                    &&& desc.layout.texel_stride == texel.spec_bytes()
                    &&& desc.layout.row_stride == width * texel.spec_bytes()
                    &&& desc.texel == texel
                    &&& desc.color == crate::color::spec_srgb()
                    &&& desc.spec_consistent()
                },
                None => height * (width * texel.spec_bytes()) > u64::MAX,
            },
    {
        let texel_stride = texel.bits.bytes();
        proof {
            lemma_stride_product_fits(width, texel_stride);
        }
        let row_stride = (width as u64) * (texel_stride as u64);
        match (height as u64).checked_mul(row_stride) {
            Some(_) => Some(
                Descriptor {
                    layout: ByteLayout { width, height, texel_stride, row_stride },
                    texel,
                    color: Color::srgb(),
                },
            ),
            None => None,
        }
    }

    /// The total number of bytes of the backing buffer.
    pub fn u64_len(&self) -> (r: u64)
        requires
            self.layout.spec_len() <= u64::MAX,
        ensures
            r == self.layout.spec_len(),
    {
        (self.layout.height as u64) * self.layout.row_stride
    }

    /// The row stride of the image in a device transfer buffer: the pixel
    /// bytes of one row, rounded up to the device row alignment.
    pub open spec fn spec_aligned_row_stride(self) -> int {
        ((self.layout.width * self.texel.spec_bytes() + ROW_ALIGNMENT - 1) / (
        ROW_ALIGNMENT as int)) * ROW_ALIGNMENT
    }

    /// The total byte size of the image in a device transfer buffer.
    pub open spec fn spec_gpu_len(self) -> int {
        self.layout.height * self.spec_aligned_row_stride()
    }

    /// The layout of the image in a device transfer buffer, where each row is
    /// padded to the device row alignment.
    ///
    /// Returns nothing exactly when that padded size overflows a `u64`.
    pub fn to_aligned(&self) -> (r: Option<AlignedLayout>)
        ensures
            match r {
                Some(aligned) => {
                    &&& aligned.height == self.layout.height
                    &&& aligned.row_stride == self.spec_aligned_row_stride()
                    &&& self.spec_gpu_len() <= u64::MAX
                },
                None => self.spec_gpu_len() > u64::MAX,
            },
    {
        let texel_bytes = self.texel.bits.bytes();
        proof {
            assert(texel_bytes <= 16);
            assert((self.layout.width as u64) * (texel_bytes as u64) <= 0xF_FFFF_FFF0u64)
                by (nonlinear_arith)
                requires
                    self.layout.width <= 0xFFFF_FFFFu32,
                    texel_bytes <= 16u16,
            ;
        }
        let pixel_bytes = (self.layout.width as u64) * (texel_bytes as u64);
        let padded = pixel_bytes + (ROW_ALIGNMENT - 1);
        proof {
            assert((padded as int) / (ROW_ALIGNMENT as int) * (ROW_ALIGNMENT as int) <= padded
                as int) by (nonlinear_arith)
                requires
                    padded >= 0,
            ;
        }
        let row_stride = padded / ROW_ALIGNMENT * ROW_ALIGNMENT;
        match (self.layout.height as u64).checked_mul(row_stride) {
            Some(_) => Some(AlignedLayout { height: self.layout.height, row_stride }),
            None => None,
        }
    }

    /// The total byte size of the image in a device transfer buffer.
    pub fn u64_gpu_len(&self) -> (r: Option<u64>)
        ensures
            match r {
                Some(len) => len == self.spec_gpu_len(),
                None => self.spec_gpu_len() > u64::MAX,
            },
    {
        match self.to_aligned() {
            Some(aligned) => Some((aligned.height as u64) * aligned.row_stride),
            None => None,
        }
    }
}


impl Descriptor {
    /// Whether the image has a native texture representation on the device,
    /// so that it can serve as a render target: four 8-bit samples in RGBA
    /// or BGRA order.
    pub open spec fn spec_renderable(self) -> bool {
        &&& self.texel.bits == crate::texel::SampleBits::UInt8x4
        &&& (self.texel.parts == crate::texel::SampleParts::RgbA || self.texel.parts
            == crate::texel::SampleParts::BgrA)
    }

    /// Check that the image can serve as a render target.
    pub fn is_renderable(&self) -> (r: bool)
        ensures
            r == self.spec_renderable(),
    {
        let bits_ok = match self.texel.bits {
            crate::texel::SampleBits::UInt8x4 => true,
            _ => false,
        };
        let parts_ok = match self.texel.parts {
            crate::texel::SampleParts::RgbA => true,
            crate::texel::SampleParts::BgrA => true,
            _ => false,
        };
        bits_ok && parts_ok
    }
}

} // verus!
