//! The builder API: validation rules, error kinds and the recorded nodes.
use zosimos::color::{Color, Illuminant, Primary};
use zosimos::command::{
    Affine, AffineSample, Blend, CommandBuffer, CommandErrorKind, InvocationArguments, Register,
};
use zosimos::layout::Descriptor;
use zosimos::texel::{ChannelPosition, ColorChannel, SampleBits, SampleParts, Texel};

fn rgba8(width: u32, height: u32) -> Descriptor {
    Descriptor::with_texel(Texel::new_u8(SampleParts::RgbA), width, height)
        .expect("representable layout")
}

fn with_texel(bits: SampleBits, parts: SampleParts, width: u32, height: u32) -> Descriptor {
    let texel = Texel { bits, parts };
    Descriptor::with_texel(texel, width, height).expect("representable layout")
}

#[test]
fn simple_program() {
    let mut commands = CommandBuffer::create();

    let expected = rgba8(128, 96);
    let foreground_desc = rgba8(40, 30);

    let placement = zosimos::rect::Rectangle { x: 0, y: 0, max_x: 40, max_y: 30 };

    let background = commands.input(expected).expect("Background declared");
    let foreground = commands.input(foreground_desc).expect("Foreground declared");

    let result = commands
        .inscribe(background, placement, foreground)
        .expect("Valid to inscribe");
    let (_, outformat) = commands.output(result).expect("Valid for output");

    let _ = commands.compile().expect("Could build command buffer");
    assert_eq!(outformat.as_concrete().map(|x| x.layout), Some(expected.layout));
}

#[test]
fn inconsistent_input_is_a_bad_descriptor() {
    let mut commands = CommandBuffer::create();
    let mut desc = rgba8(4, 4);
    desc.layout.texel_stride = 3;
    let out = commands.input(desc);
    assert!(matches!(out.unwrap_err().inner, CommandErrorKind::BadDescriptor(_)));
}

#[test]
fn bad_register_is_other() {
    let mut commands = CommandBuffer::create();
    let out = commands.crop(
        Register(7),
        zosimos::rect::Rectangle { x: 0, y: 0, max_x: 1, max_y: 1 },
    );
    let err = out.unwrap_err();
    assert!(matches!(err.inner, CommandErrorKind::Other));
    assert!(!err.is_type_err());
}

#[test]
fn color_convert_requires_concrete_descriptor() {
    let mut commands = CommandBuffer::create();
    let generic = commands.generic(zosimos::command::GenericDeclaration { bounds: &[] });
    let image = commands.input_generic(generic).expect("generic input");
    let out = commands.color_convert(image, Color::Oklab, Texel::new_u8(SampleParts::RgbA));
    assert!(matches!(
        out.unwrap_err().inner,
        CommandErrorKind::ConcreteDescriptorRequired
    ));
}

#[test]
fn color_convert_refuses_unhandled_pairs() {
    // Oklab to SrLab2 has no direct conversion.
    let mut commands = CommandBuffer::create();
    let mut desc = rgba8(8, 8);
    desc.color = Color::Oklab;
    let image = commands.input(desc).expect("input");
    let out = commands.color_convert(
        image,
        Color::SrLab2 { whitepoint: Illuminant::D65 },
        Texel::new_u8(SampleParts::RgbA),
    );
    let err = out.unwrap_err();
    assert!(matches!(err.inner, CommandErrorKind::BadDescriptor(_)));
    assert!(err.is_type_err());
}

#[test]
fn inscribe_chroma_mismatch_conflicts() {
    let mut commands = CommandBuffer::create();
    let below = commands.input(rgba8(100, 100)).expect("background");
    let mut fg = rgba8(40, 30);
    fg.color = Color::Oklab;
    let above = commands.input(fg).expect("foreground");
    let rect = zosimos::rect::Rectangle { x: 0, y: 0, max_x: 40, max_y: 30 };
    let out = commands.inscribe(below, rect, above);
    assert!(matches!(
        out.unwrap_err().inner,
        CommandErrorKind::ConflictingTypes(_, _)
    ));
}

#[test]
fn inscribe_rejects_wrong_placement_size() {
    let mut commands = CommandBuffer::create();
    let below = commands.input(rgba8(100, 100)).expect("background");
    let above = commands.input(rgba8(40, 30)).expect("foreground");
    let rect = zosimos::rect::Rectangle { x: 0, y: 0, max_x: 41, max_y: 30 };
    assert!(commands.inscribe(below, rect, above).is_err());
    // And a placement reaching outside of the background is refused too.
    let rect = zosimos::rect::Rectangle { x: 70, y: 80, max_x: 110, max_y: 110 };
    assert!(commands.inscribe(below, rect, above).is_err());
}

#[test]
fn mismatched_affine_operands_are_a_type_error() {
    let mut commands = CommandBuffer::create();
    let below = commands.input(rgba8(8, 8)).expect("below");
    let mut oklab = rgba8(8, 8);
    oklab.color = Color::Oklab;
    let above = commands.input(oklab).expect("above");
    let err = commands
        .affine(below, Affine::new(AffineSample::Nearest), above)
        .unwrap_err();
    assert!(matches!(err.inner, CommandErrorKind::GenericTypeError));
    assert!(err.is_type_err());
}

#[test]
fn blend_is_unimplemented() {
    let mut commands = CommandBuffer::create();
    let below = commands.input(rgba8(8, 8)).expect("below");
    let above = commands.input(rgba8(8, 8)).expect("above");
    let rect = zosimos::rect::Rectangle { x: 0, y: 0, max_x: 8, max_y: 8 };
    let out = commands.blend(below, rect, above, Blend::Alpha);
    assert!(matches!(out.unwrap_err().inner, CommandErrorKind::Unimplemented));
}

#[test]
fn transmute_same_width_succeeds_and_smaller_fails() {
    // A four-byte texel reinterprets as other four-byte texels, but not
    // as a one-byte texel.
    let mut commands = CommandBuffer::create();
    let image = commands.input(rgba8(64, 64)).expect("input");

    let two_sixteen = with_texel(SampleBits::UInt16x2, SampleParts::LumaA, 64, 64);
    let out = commands.transmute(image, two_sixteen);
    assert!(out.is_ok(), "four bytes to four bytes");

    let one_thirtytwo = with_texel(SampleBits::Float32, SampleParts::Luma, 64, 64);
    let out = commands.transmute(image, one_thirtytwo);
    assert!(out.is_ok(), "four bytes to four bytes, one sample");

    let one_eight = with_texel(SampleBits::UInt8, SampleParts::Luma, 64, 64);
    let err = commands.transmute(image, one_eight).unwrap_err();
    assert!(matches!(err.inner, CommandErrorKind::BadDescriptor(_)), "mismatched size");
}

#[test]
fn transmute_back_reproduces_the_type() {
    let mut commands = CommandBuffer::create();
    let source = rgba8(64, 64);
    let image = commands.input(source).expect("input");
    let two_sixteen = with_texel(SampleBits::UInt16x2, SampleParts::LumaA, 64, 64);
    let forth = commands.transmute(image, two_sixteen).expect("transmute forth");
    let back = commands.transmute(forth, source).expect("transmute back");
    let (_, outformat) = commands.output(back).expect("output");
    assert_eq!(outformat.as_concrete(), Some(source));
}

#[test]
fn affine_determinant_gate() {
    let mut commands = CommandBuffer::create();
    let below = commands.input(rgba8(16, 16)).expect("below");
    let above = commands.input(rgba8(16, 16)).expect("above");

    let fine = Affine::new(AffineSample::Nearest);
    assert!(commands.affine(below, fine, above).is_ok());

    let singular = Affine {
        transformation: [0; 9],
        sampling: AffineSample::Nearest,
    };
    let err = commands.affine(below, singular, above).unwrap_err();
    assert!(matches!(err.inner, CommandErrorKind::Other));

    let bilinear = Affine::new(AffineSample::BiLinear);
    let err = commands.affine(below, bilinear, above).unwrap_err();
    assert!(matches!(err.inner, CommandErrorKind::Unimplemented));
}

#[test]
fn from_buffer_accepts_zero_sizes_exactly_when_empty() {
    let mut commands = CommandBuffer::create();
    // A zero-size texture needs zero bytes: an empty buffer qualifies.
    let empty = commands.buffer_zero(0);
    let zero_sized = rgba8(0, 0);
    assert!(commands.from_buffer(empty, zero_sized).is_ok());

    // The same empty buffer cannot back a real texture.
    let real = rgba8(4, 4);
    assert!(commands.from_buffer(empty, real).is_err());

    // A padded row of a real texture takes the device alignment.
    let bytes = commands.buffer_zero(4 * 256);
    assert!(commands.from_buffer(bytes, rgba8(4, 4)).is_ok());
}

#[test]
fn extract_and_inject_round_trip_types() {
    let mut commands = CommandBuffer::create();
    let image = commands.input(rgba8(32, 32)).expect("input");
    let channel = commands.extract(image, ColorChannel::G).expect("extract green");
    let merged = commands.inject(image, ColorChannel::G, channel).expect("inject green");
    let (_, outformat) = commands.output(merged).expect("output");
    assert_eq!(outformat.as_concrete(), Some(rgba8(32, 32)));

    // The alpha channel has no position in the paint coordinates.
    assert!(commands.extract(image, ColorChannel::Alpha).is_err());
}

#[test]
fn invoke_zero_results_defines_nothing() {
    // A function that consumes its input and returns nothing.
    let mut callee = CommandBuffer::create();
    let sink = callee.input(rgba8(10, 10)).expect("parameter");
    let _ = sink;
    let signature = callee.computed_signature();

    let mut primary = CommandBuffer::create();
    let image = primary.input(rgba8(10, 10)).expect("argument");
    let function = primary.function(signature).expect("declared");
    let before = primary.ops.len();
    let results = primary
        .invoke(function, InvocationArguments { generics: &[], arguments: &[image] })
        .expect("invoked");
    assert!(results.is_empty());
    assert_eq!(primary.ops.len(), before + 1);
}

#[test]
fn chromatic_adaptation_changes_the_whitepoint() {
    let mut commands = CommandBuffer::create();
    let image = commands.input(rgba8(8, 8)).expect("input");
    let adapted = commands
        .chromatic_adaptation(
            image,
            zosimos::color::ChromaticAdaptationMethod::BradfordVonKries,
            Illuminant::D50,
        )
        .expect("adaptation built");
    let (_, outformat) = commands.output(adapted).expect("output");
    let concrete = outformat.as_concrete().expect("concrete");
    match concrete.color {
        Color::Rgb { primary, whitepoint, .. } => {
            assert_eq!(primary, Primary::Bt709);
            assert_eq!(whitepoint, Illuminant::D50);
        }
        other => panic!("unexpected color {:?}", other),
    }
}

#[test]
fn with_buffer_start_must_align() {
    let mut commands = CommandBuffer::create();
    let buffer = commands.buffer_zero(256);
    let with = commands.with_buffer(buffer).expect("buffer knob source");
    assert!(with.with_start(6).is_err());
    let mut commands = CommandBuffer::create();
    let buffer = commands.buffer_zero(256);
    let with = commands.with_buffer(buffer).expect("buffer knob source");
    let with = with.with_start(8).expect("aligned start");
    let reg = with
        .solid_rgba(rgba8(4, 4), [0, 0, 0, 0x3F80_0000])
        .expect("wrapped construct");
    assert_eq!(commands.knobs.len(), 1);
    assert_eq!(commands.knobs[0].0, reg);
}

#[test]
fn device_layout_is_row_aligned() {
    // A four-pixel RGBA row holds sixteen bytes, padded to the device row
    // alignment of two hundred and fifty six.
    let desc = rgba8(4, 4);
    assert_eq!(desc.layout.row_stride, 16);
    let aligned = desc.to_aligned().expect("representable");
    assert_eq!(aligned.row_stride, 256);
    assert_eq!(desc.u64_gpu_len(), Some(4 * 256));

    // A row wider than one alignment unit takes two.
    let wide = rgba8(65, 1);
    assert_eq!(wide.to_aligned().expect("representable").row_stride, 512);
}

#[test]
fn default_buffer_is_empty() {
    let commands = CommandBuffer::default();
    assert_eq!(commands.ops.len(), 0);
    assert_eq!(commands.knobs.len(), 0);
}

#[test]
fn texel_byte_sizes() {
    assert_eq!(Texel::new_u8(SampleParts::RgbA).bits.bytes(), 4);
    assert_eq!(Texel::new_u8(SampleParts::Luma).bits.bytes(), 1);
    assert_eq!(Texel::new_u16(SampleParts::LumaA).bits.bytes(), 4);
    assert_eq!(SampleBits::Float32x4.bytes(), 16);

    let rgba = Texel::new_u8(SampleParts::RgbA);
    let green = rgba.channel_texel(ColorChannel::G).expect("present channel");
    assert_eq!(green, Texel { bits: SampleBits::UInt8, parts: SampleParts::G });
    assert!(rgba.channel_texel(ColorChannel::Luma).is_none());

    assert_eq!(
        ChannelPosition::new(ColorChannel::B),
        Some(ChannelPosition::Third)
    );
    assert_eq!(
        ChannelPosition::Second.into_vec4(),
        [0, 0x3F80_0000, 0, 0]
    );
    assert_eq!(
        green.channel_weight_vec4(),
        Some([0, 0x3F80_0000, 0, 0])
    );
}
