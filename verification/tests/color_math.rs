//! The scalar float layer, the matrix algebra and the color data against
//! native computation and against the crates they rely on.
use zosimos::color::{
    adaptation_matrix, rgb_to_xyz, whitepoint_to_xyz, ChromaticAdaptationMethod, Illuminant,
    Primary,
};
use zosimos::fp32;
use zosimos::matrix::RowMatrix;
use zosimos::shaders::{le_bytes_of_words, LinearColorTransform};

use palette::chromatic_adaptation::{Method, TransformMatrix};
use palette::white_point::{WhitePoint, A, D50, D65};

fn bits(x: f32) -> u32 {
    x.to_bits()
}

fn val(x: u32) -> f32 {
    f32::from_bits(x)
}

#[test]
fn scalar_ops_match_hardware() {
    let a = 1.5f32;
    let b = 2.25f32;
    assert_eq!(val(fp32::f32_add(bits(a), bits(b))), a + b);
    assert_eq!(val(fp32::f32_sub(bits(a), bits(b))), a - b);
    assert_eq!(val(fp32::f32_mul(bits(a), bits(b))), a * b);
    assert_eq!(val(fp32::f32_div(bits(a), bits(b))), a / b);
    assert_eq!(val(fp32::f32_neg(bits(a))), -a);
    assert_eq!(val(fp32::f32_abs(bits(-a))), a);
    assert!(fp32::f32_le(bits(a), bits(b)));
    assert!(!fp32::f32_le(bits(b), bits(a)));
    assert!(!fp32::f32_le(bits(f32::NAN), bits(a)));
    assert_eq!(val(fp32::f32_int(4684)), 4684.0);
    // The operations also round: a third is not representable exactly.
    let third = fp32::f32_div(fp32::f32_int(1), fp32::f32_int(3));
    assert_eq!(val(third), 1.0f32 / 3.0f32);
}

fn native_mat(m: &RowMatrix) -> [f32; 9] {
    let mut out = [0.0f32; 9];
    for i in 0..9 {
        out[i] = val(m.0[i]);
    }
    out
}

#[test]
fn determinant_and_inverse_match_native() {
    let m = RowMatrix::new([
        bits(2.0),
        bits(0.5),
        bits(0.0),
        bits(0.0),
        bits(1.0),
        bits(0.25),
        bits(1.0),
        bits(0.0),
        bits(3.0),
    ]);
    let n = native_mat(&m);
    let det_native = n[0] * (n[4] * n[8] - n[5] * n[7]) - n[3] * (n[1] * n[8] - n[2] * n[7])
        + n[6] * (n[1] * n[5] - n[2] * n[4]);
    assert_eq!(val(m.det()), det_native);
    assert!(m.det_at_least_epsilon());

    // The inverse multiplied back gives the identity within rounding.
    let inv = m.inv();
    let product = m.multiply_right(inv.to_col()).to_row();
    let p = native_mat(&product);
    for i in 0..3 {
        for j in 0..3 {
            let expect = if i == j { 1.0 } else { 0.0 };
            assert!((p[3 * i + j] - expect).abs() < 1e-5);
        }
    }
}

#[test]
fn singular_affine_is_rejected_by_the_check() {
    let m = RowMatrix::new([bits(1.0), bits(2.0), bits(0.0), bits(2.0), bits(4.0), bits(0.0),
        bits(0.0), bits(0.0), bits(1.0)]);
    assert!(!m.det_at_least_epsilon());
}

#[test]
fn rgb_to_xyz_matches_image_canvas() {
    let mine = rgb_to_xyz(Primary::Bt709, Illuminant::D65);
    let theirs = image_canvas::color::Primaries::Bt709
        .to_xyz_row_matrix(image_canvas::color::Whitepoint::D65);
    for i in 0..9 {
        assert_eq!(mine[i], theirs[i].to_bits());
    }
    // A different illuminant gives a different matrix.
    let other = rgb_to_xyz(Primary::Bt709, Illuminant::D50);
    assert_ne!(mine, other);
}

#[test]
fn whitepoint_xyz_matches_the_tables() {
    let d65 = whitepoint_to_xyz(Illuminant::D65);
    assert_eq!(d65, [bits(0.95047), bits(1.0), bits(1.08883)]);
    let e = whitepoint_to_xyz(Illuminant::E);
    assert_eq!(e, [bits(1.0), bits(1.0), bits(1.0)]);
}

#[test]
fn adaptation_matches_palette() {
    let mine = adaptation_matrix(
        &ChromaticAdaptationMethod::BradfordVonKries,
        Illuminant::D65,
        Illuminant::D50,
    )
    .expect("implemented method");
    let theirs: [f32; 9] = Method::Bradford.generate_transform_matrix(
        <D65 as WhitePoint<f32>>::get_xyz(),
        <D50 as WhitePoint<f32>>::get_xyz(),
    );
    for i in 0..9 {
        assert_eq!(mine.0[i], theirs[i].to_bits(), "entry {}", i);
    }
}

#[test]
fn adaptation_von_kries_matches_palette() {
    let mine = adaptation_matrix(
        &ChromaticAdaptationMethod::VonKries,
        Illuminant::A,
        Illuminant::D65,
    )
    .expect("implemented method");
    let theirs: [f32; 9] = Method::VonKries.generate_transform_matrix(
        <A as WhitePoint<f32>>::get_xyz(),
        <D65 as WhitePoint<f32>>::get_xyz(),
    );
    for i in 0..9 {
        assert_eq!(mine.0[i], theirs[i].to_bits(), "entry {}", i);
    }
}

#[test]
fn adaptation_refuses_nonlinear_bradford() {
    let out = adaptation_matrix(
        &ChromaticAdaptationMethod::BradfordNonLinear,
        Illuminant::D65,
        Illuminant::D50,
    );
    assert!(out.is_none());
}

#[test]
fn oklab_round_trip_composes_to_identity() {
    // The encode matrix of sRGB to Oklab and the decode matrix back are
    // the RGB-to-XYZ matrix and its inverse; composed they are the
    // identity within a tolerance.
    let to_xyz = RowMatrix::new(rgb_to_xyz(Primary::Bt709, Illuminant::D65));
    let back = to_xyz.inv();
    let product = native_product(&to_xyz, &back);
    for i in 0..3 {
        for j in 0..3 {
            let expect = if i == j { 1.0 } else { 0.0 };
            assert!((product[3 * i + j] - expect).abs() < 1e-5);
        }
    }
}

fn native_product(a: &RowMatrix, b: &RowMatrix) -> [f32; 9] {
    let an = native_mat(a);
    let bn = native_mat(b);
    let mut out = [0.0f32; 9];
    for i in 0..3 {
        for j in 0..3 {
            out[3 * i + j] =
                an[3 * i] * bn[j] + an[3 * i + 1] * bn[3 + j] + an[3 * i + 2] * bn[6 + j];
        }
    }
    out
}

#[test]
fn std140_matrix_packing() {
    let m = RowMatrix::new([1, 2, 3, 4, 5, 6, 7, 8, 9]);
    let words = m.into_mat3x3_std140();
    assert_eq!(words, [1, 4, 7, 0, 2, 5, 8, 0, 3, 6, 9, 0]);
    let shader = LinearColorTransform { matrix: m };
    let packed = le_bytes_of_words(&shader.matrix.into_mat3x3_std140());
    assert_eq!(packed.len(), 48);
    assert_eq!(&packed[0..4], &[1, 0, 0, 0]);
    assert_eq!(&packed[4..8], &[4, 0, 0, 0]);
    assert_eq!(&packed[44..48], &[0, 0, 0, 0]);
}

#[test]
fn bilinear_packing_is_six_vectors() {
    let data = zosimos::shaders::bilinear::ShaderData {
        u_min: [1, 2, 3, 4],
        u_max: [5, 6, 7, 8],
        v_min: [9, 10, 11, 12],
        v_max: [13, 14, 15, 16],
        uv_min: [17, 18, 19, 20],
        uv_max: [21, 22, 23, 24],
    };
    let packed = data.into_std430();
    assert_eq!(packed.len(), 96);
    assert_eq!(&packed[0..4], &[1, 0, 0, 0]);
    assert_eq!(&packed[92..96], &[24, 0, 0, 0]);
}
