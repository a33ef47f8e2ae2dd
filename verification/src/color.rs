//! Colorimetric interpretation of image data.
//!
//! A color pairs a channel model with the photometric data needed to convert
//! between spaces: primaries, whitepoint, transfer function and reference
//! luminance. The compiler decides at build time which conversions exist;
//! the matrices that realize them on the device are computed here, as
//! single-precision bit patterns.
use vstd::prelude::*;

use crate::fp32::{div_bits, f32_div, F32_ONE, F32_ZERO};
use crate::matrix::{dot3, RowMatrix};

verus! {

/// Declares image-canvas's set-of-primaries type, so that the conversion
/// helpers below may hand values of it to that crate.
#[verifier::external_type_specification]
#[verifier::external_body]
pub struct ExPrimaries(image_canvas::color::Primaries);

/// Declares image-canvas's illuminant type, so that the conversion helpers
/// below may hand values of it to that crate.
#[verifier::external_type_specification]
#[verifier::external_body]
pub struct ExWhitepoint(image_canvas::color::Whitepoint);

/// The reference illuminant of a color space.
#[derive(Clone, Copy, Debug, PartialEq, Eq, Structural, Hash)]
pub enum Illuminant {
    A,
    B,
    C,
    D50,
    D55,
    D65,
    D75,
    E,
    F2,
    F7,
    F11,
}

/// The relative stimuli of the three corners of a triangular RGB-ish gamut.
#[derive(Clone, Copy, Debug, PartialEq, Eq, Structural, Hash)]
pub enum Primary {
    /// First set of primaries specified in Bt/Rec.601.
    Bt601_525,
    /// Second set of primaries specified in Bt/Rec.601.
    Bt601_625,
    /// Primaries specified in Bt/Rec.709.
    Bt709,
    /// Primaries specified in SMPTE240-M, the same stimuli as Bt.601.
    Smpte240,
    /// Primaries specified in Bt/Rec.2020, also known as wide color gamut.
    Bt2020,
    /// Primaries specified in Bt/Rec.2100, the same stimuli as Bt.2020.
    Bt2100,
}

/// The electro-optical transfer function applied to encoded samples.
#[derive(Clone, Copy, Debug, PartialEq, Eq, Structural, Hash)]
pub enum Transfer {
    /// Non-linear electrical data of Bt.709.
    Bt709,
    /// Non-linear electrical data of Bt.470 M/NTSC, a pure gamma of 2.2.
    Bt470M,
    /// Non-linear electrical data of Bt.601.
    Bt601,
    /// Non-linear electrical data of Smpte-240.
    Smpte240,
    /// Linear color in display luminance.
    Linear,
    /// Non-linear electrical data of sRGB.
    Srgb,
}

/// The reference luminance of the brightest representable white.
#[derive(Clone, Copy, Debug, PartialEq, Eq, Structural, Hash)]
pub enum Luminance {
    /// 100 cd/m².
    Sdr,
    /// 10000 cd/m², known as high dynamic range.
    Hdr,
    /// 160 cd/m².
    AdobeRgb,
}

/// The colorimetric interpretation of texel values.
#[derive(Clone, Copy, Debug, PartialEq, Eq, Structural, Hash)]
pub enum Color {
    /// An additive RGB-ish model based on the CIE 1931 XYZ observers.
    Rgb {
        primary: Primary,
        transfer: Transfer,
        whitepoint: Illuminant,
        luminance: Luminance,
    },
    /// The Oklab perceptual color space, defined against the D65 illuminant.
    Oklab,
    /// The SrLab2 perceptual color space, against a chosen illuminant.
    SrLab2 { whitepoint: Illuminant },
}

/// The sRGB color space: Bt.709 primaries and the sRGB transfer function
/// under the D65 illuminant at standard dynamic range.
pub open spec fn spec_srgb() -> Color {
    Color::Rgb {
        primary: Primary::Bt709,
        transfer: Transfer::Srgb,
        whitepoint: Illuminant::D65,
        luminance: Luminance::Sdr,
    }
}

impl Color {
    /// The sRGB color space: Bt.709 primaries and the sRGB transfer function
    /// under the D65 illuminant at standard dynamic range.
    pub fn srgb() -> (r: Color)
        ensures
            r == spec_srgb(),
    {
        Color::Rgb {
            primary: Primary::Bt709,
            transfer: Transfer::Srgb,
            whitepoint: Illuminant::D65,
            luminance: Luminance::Sdr,
        }
    }
}

/// The row-major matrix taking linear RGB in the given primaries — scaled so
/// that full white maps onto the illuminant — to CIE XYZ, as image-canvas
/// computes it.
pub uninterp spec fn rgb_to_xyz_matrix(primary: Primary, white: Illuminant) -> [u32; 9];

/// The CIE XYZ coordinates of the illuminant, as image-canvas tabulates them.
pub uninterp spec fn whitepoint_xyz(white: Illuminant) -> [u32; 3];

/// Relies on image-canvas: selects the same set of primaries there.
#[verifier::external_body]
fn ic_primaries(primary: Primary) -> image_canvas::color::Primaries {
    match primary {
        Primary::Bt601_525 => image_canvas::color::Primaries::Bt601_525,
        Primary::Bt601_625 => image_canvas::color::Primaries::Bt601_625,
        Primary::Bt709 => image_canvas::color::Primaries::Bt709,
        Primary::Smpte240 => image_canvas::color::Primaries::Smpte240,
        Primary::Bt2020 => image_canvas::color::Primaries::Bt2020,
        Primary::Bt2100 => image_canvas::color::Primaries::Bt2100,
    }
}

/// Relies on image-canvas: selects the same illuminant there.
#[verifier::external_body]
fn ic_whitepoint(white: Illuminant) -> image_canvas::color::Whitepoint {
    match white {
        Illuminant::A => image_canvas::color::Whitepoint::A,
        Illuminant::B => image_canvas::color::Whitepoint::B,
        Illuminant::C => image_canvas::color::Whitepoint::C,
        Illuminant::D50 => image_canvas::color::Whitepoint::D50,
        Illuminant::D55 => image_canvas::color::Whitepoint::D55,
        Illuminant::D65 => image_canvas::color::Whitepoint::D65,
        Illuminant::D75 => image_canvas::color::Whitepoint::D75,
        Illuminant::E => image_canvas::color::Whitepoint::E,
        Illuminant::F2 => image_canvas::color::Whitepoint::F2,
        Illuminant::F7 => image_canvas::color::Whitepoint::F7,
        Illuminant::F11 => image_canvas::color::Whitepoint::F11,
    }
}

/// Relies on image-canvas's `Primaries::to_xyz_row_matrix`: the RGB-to-XYZ
/// matrix of the primaries under the given illuminant, a function of the two
/// enumerations alone.
#[verifier::external_body]
pub fn rgb_to_xyz(primary: Primary, white: Illuminant) -> (r: [u32; 9])
    ensures
        r == rgb_to_xyz_matrix(primary, white),
{
    let m = image_canvas::color::Primaries::to_xyz_row_matrix(
        ic_primaries(primary),
        ic_whitepoint(white),
    );
    m.map(|v| v.to_bits())
}

/// Relies on image-canvas's `Whitepoint::to_xyz`: the tabulated CIE XYZ
/// coordinates of the illuminant.
#[verifier::external_body]
pub fn whitepoint_to_xyz(white: Illuminant) -> (r: [u32; 3])
    ensures
        r == whitepoint_xyz(white),
{
    image_canvas::color::Whitepoint::to_xyz(ic_whitepoint(white)).map(|v| v.to_bits())
}

/// How a whitepoint change is realized on linear colors.
#[derive(Clone, Copy, Debug, PartialEq, Eq, Structural, Hash)]
pub enum ChromaticAdaptationMethod {
    /// Naive adaptation based on a component-wise linear transform in XYZ.
    Xyz,
    /// A component-wise transform in LMS (cone response) coordinates.
    VonKries,
    /// Bradford's modified (sharpened) LMS definition with linear von Kries
    /// adaptation, as used in ICC profiles.
    BradfordVonKries,
    /// Bradford's originally intended adaptation with its blue non-linearity.
    /// Recognized but not implemented.
    BradfordNonLinear,
}

/// The Bradford sharpened cone response matrix, XYZ to LMS.
pub open spec fn spec_bradford_to_lms() -> [u32; 9] {
    [
        0x3F652546u32,
        0x3E886595u32,
        0xBE25460Bu32,
        0xBF400D1Bu32,
        0x3FDB53F8u32,
        0x3D1652BDu32,
        0x3D1F559Bu32,
        0xBD8C49BAu32,
        0x3F83C9EFu32,
    ]
}

/// The inverse of the Bradford cone response matrix, LMS to XYZ.
pub open spec fn spec_bradford_to_xyz() -> [u32; 9] {
    [
        0x3F7CAB91u32,
        0xBE169567u32,
        0x3E23CD43u32,
        0x3EDD571Fu32,
        0x3F04B343u32,
        0x3D49E592u32,
        0xBC0BBBF6u32,
        0x3D2403EBu32,
        0x3F77EEBFu32,
    ]
}

/// The von Kries cone response matrix, XYZ to LMS, normalized to D65.
pub open spec fn spec_von_kries_to_lms() -> [u32; 9] {
    [
        0x3ECCEC42u32,
        0x3F352546u32,
        0xBDA57FB7u32,
        0xBE67BB30u32,
        0x3F952935u32,
        0x3D3B2FECu32,
        0x00000000u32,
        0x00000000u32,
        0x3F6B1077u32,
    ]
}

/// The inverse of the von Kries cone response matrix, LMS to XYZ.
pub open spec fn spec_von_kries_to_xyz() -> [u32; 9] {
    [
        0x3FEE1265u32,
        0xBF908F94u32,
        0x3E612CC9u32,
        0x3EB8EE14u32,
        0x3F238937u32,
        0xB6D6BF95u32,
        0x00000000u32,
        0x00000000u32,
        0x3F8B6670u32,
    ]
}

/// The identity matrix: adaptation scaling applied directly on XYZ.
pub open spec fn spec_unit_matrix() -> [u32; 9] {
    [F32_ONE, 0u32, 0u32, 0u32, F32_ONE, 0u32, 0u32, 0u32, F32_ONE]
}

/// The XYZ-to-cone-response matrix of the adaptation method.
pub open spec fn spec_xyz_to_lms(method: ChromaticAdaptationMethod) -> [u32; 9] {
    match method {
        ChromaticAdaptationMethod::Xyz => spec_unit_matrix(),
        ChromaticAdaptationMethod::VonKries => spec_von_kries_to_lms(),
        _ => spec_bradford_to_lms(),
    }
}

/// The cone-response-to-XYZ matrix of the adaptation method.
pub open spec fn spec_lms_to_xyz(method: ChromaticAdaptationMethod) -> [u32; 9] {
    match method {
        ChromaticAdaptationMethod::Xyz => spec_unit_matrix(),
        ChromaticAdaptationMethod::VonKries => spec_von_kries_to_xyz(),
        _ => spec_bradford_to_xyz(),
    }
}

/// The dot product of row `r` of a row-major matrix with a column vector.
pub open spec fn row_dot9(m: [u32; 9], r: int, c0: u32, c1: u32, c2: u32) -> u32 {
    dot3(m[3 * r], m[3 * r + 1], m[3 * r + 2], c0, c1, c2)
}

/// The per-component gain of the adaptation: the cone response of the target
/// whitepoint divided by the cone response of the source whitepoint.
pub open spec fn spec_adaptation_gain(
    method: ChromaticAdaptationMethod,
    source: Illuminant,
    target: Illuminant,
    i: int,
) -> u32 {
    let ma = spec_xyz_to_lms(method);
    let src = whitepoint_xyz(source);
    let dst = whitepoint_xyz(target);
    div_bits(
        row_dot9(ma, i, dst[0], dst[1], dst[2]),
        row_dot9(ma, i, src[0], src[1], src[2]),
    )
}

/// One entry of the diagonal gain matrix.
pub open spec fn spec_adaptation_diag(
    method: ChromaticAdaptationMethod,
    source: Illuminant,
    target: Illuminant,
    k: int,
    l: int,
) -> u32 {
    if k == l {
        spec_adaptation_gain(method, source, target, k)
    } else {
        F32_ZERO
    }
}

/// One entry of the gain matrix times the XYZ-to-LMS matrix.
pub open spec fn spec_adaptation_tmp(
    method: ChromaticAdaptationMethod,
    source: Illuminant,
    target: Illuminant,
    k: int,
    j: int,
) -> u32 {
    let ma = spec_xyz_to_lms(method);
    dot3(
        spec_adaptation_diag(method, source, target, k, 0),
        spec_adaptation_diag(method, source, target, k, 1),
        spec_adaptation_diag(method, source, target, k, 2),
        ma[j],
        ma[3 + j],
        ma[6 + j],
    )
}

/// One entry of the full adaptation matrix: the LMS-to-XYZ matrix times the
/// gains times the XYZ-to-LMS matrix.
pub open spec fn spec_adaptation_at(
    method: ChromaticAdaptationMethod,
    source: Illuminant,
    target: Illuminant,
    i: int,
    j: int,
) -> u32 {
    let inv = spec_lms_to_xyz(method);
    dot3(
        inv[3 * i],
        inv[3 * i + 1],
        inv[3 * i + 2],
        spec_adaptation_tmp(method, source, target, 0, j),
        spec_adaptation_tmp(method, source, target, 1, j),
        spec_adaptation_tmp(method, source, target, 2, j),
    )
}

/// The XYZ-to-cone-response matrix of the adaptation method.
fn xyz_to_lms(method: &ChromaticAdaptationMethod) -> (r: [u32; 9])
    ensures
        r == spec_xyz_to_lms(*method),
{
    match method {
        ChromaticAdaptationMethod::Xyz => [
            F32_ONE,
            0,
            0,
            0,
            F32_ONE,
            0,
            0,
            0,
            F32_ONE,
        ],
        ChromaticAdaptationMethod::VonKries => [
            0x3ECCEC42,
            0x3F352546,
            0xBDA57FB7,
            0xBE67BB30,
            0x3F952935,
            0x3D3B2FEC,
            0x00000000,
            0x00000000,
            0x3F6B1077,
        ],
        _ => [
            0x3F652546,
            0x3E886595,
            0xBE25460B,
            0xBF400D1B,
            0x3FDB53F8,
            0x3D1652BD,
            0x3D1F559B,
            0xBD8C49BA,
            0x3F83C9EF,
        ],
    }
}

/// The cone-response-to-XYZ matrix of the adaptation method.
fn lms_to_xyz(method: &ChromaticAdaptationMethod) -> (r: [u32; 9])
    ensures
        r == spec_lms_to_xyz(*method),
{
    match method {
        ChromaticAdaptationMethod::Xyz => [
            F32_ONE,
            0,
            0,
            0,
            F32_ONE,
            0,
            0,
            0,
            F32_ONE,
        ],
        ChromaticAdaptationMethod::VonKries => [
            0x3FEE1265,
            0xBF908F94,
            0x3E612CC9,
            0x3EB8EE14,
            0x3F238937,
            0xB6D6BF95,
            0x00000000,
            0x00000000,
            0x3F8B6670,
        ],
        _ => [
            0x3F7CAB91,
            0xBE169567,
            0x3E23CD43,
            0x3EDD571F,
            0x3F04B343,
            0x3D49E592,
            0xBC0BBBF6,
            0x3D2403EB,
            0x3F77EEBF,
        ],
    }
}

/// Compute the full chromatic adaptation matrix of the method between the two
/// whitepoints: the cone responses of both illuminants give a diagonal gain,
/// which is bracketed by the method's cone response matrix and its inverse.
///
/// Returns nothing exactly for the Bradford non-linear method, which is
/// recognized but not implemented.
pub fn adaptation_matrix(
    method: &ChromaticAdaptationMethod,
    source: Illuminant,
    target: Illuminant,
) -> (r: Option<RowMatrix>)
    ensures
        r is None <==> method is BradfordNonLinear,
        r is Some ==> forall|i: int, j: int|
            0 <= i < 3 && 0 <= j < 3 ==> #[trigger] r->0.at(3 * i + j) == spec_adaptation_at(
                *method,
                source,
                target,
                i,
                j,
            ),
{
    if let ChromaticAdaptationMethod::BradfordNonLinear = method {
        return None;
    }
    let ma = RowMatrix::new(xyz_to_lms(method));
    let inv = RowMatrix::new(lms_to_xyz(method));
    let src = whitepoint_to_xyz(source);
    let dst = whitepoint_to_xyz(target);
    let resp_src = ma.multiply_column(src);
    let resp_dst = ma.multiply_column(dst);
    let gain = RowMatrix::diag(
        f32_div(resp_dst[0], resp_src[0]),
        f32_div(resp_dst[1], resp_src[1]),
        f32_div(resp_dst[2], resp_src[2]),
    );
    let macol = ma.to_col();
    let tmp = gain.multiply_right(macol);
    let out = inv.multiply_right(tmp);
    let result = out.to_row();
    proof {
        let m = *method;
        assert forall|k: int, l: int| 0 <= k < 3 && 0 <= l < 3 implies #[trigger] gain.at(3 * k + l)
            == spec_adaptation_diag(m, source, target, k, l) by {
            assert(resp_src[k] == ma.row_dot(k, src[0], src[1], src[2]));
            assert(resp_dst[k] == ma.row_dot(k, dst[0], dst[1], dst[2]));
        }
        assert forall|k: int, j: int| 0 <= k < 3 && 0 <= j < 3 implies #[trigger] tmp.0[j][k]
            == spec_adaptation_tmp(m, source, target, k, j) by {
            assert(tmp.0[j][k] == gain.row_dot(k, macol.0[j][0], macol.0[j][1], macol.0[j][2]));
            assert(gain.at(3 * k) == spec_adaptation_diag(m, source, target, k, 0));
            assert(gain.at(3 * k + 1) == spec_adaptation_diag(m, source, target, k, 1));
            assert(gain.at(3 * k + 2) == spec_adaptation_diag(m, source, target, k, 2));
        }
        assert forall|i: int, j: int| 0 <= i < 3 && 0 <= j < 3 implies #[trigger] result.at(
            3 * i + j,
        ) == spec_adaptation_at(m, source, target, i, j) by {
            assert(result.at(3 * i + j) == out.0[j][i]);
            assert(out.0[j][i] == inv.row_dot(i, tmp.0[j][0], tmp.0[j][1], tmp.0[j][2]));
            assert(tmp.0[j][0] == spec_adaptation_tmp(m, source, target, 0, j));
            assert(tmp.0[j][1] == spec_adaptation_tmp(m, source, target, 1, j));
            assert(tmp.0[j][2] == spec_adaptation_tmp(m, source, target, 2, j));
        }
    }
    Some(result)
}

} // verus!
