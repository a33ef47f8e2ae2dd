//! Linked programs: the lowered operation stream, its operand discipline,
//! the knob table and the monomorphizer.
use zosimos::command::{CommandBuffer, InvocationArguments, Register, RegisterKnob};
use zosimos::layout::Descriptor;
use zosimos::program::{
    CallBinding, High, Initializer, Knob, KnobUser, QuadTarget, Target,
};
use zosimos::rect::Rectangle;
use zosimos::shaders::FragmentShaderInvocation;
use zosimos::texel::{SampleParts, Texel};

fn rgba8(width: u32, height: u32) -> Descriptor {
    Descriptor::with_texel(Texel::new_u8(SampleParts::RgbA), width, height)
        .expect("representable layout")
}

fn shader_of(init: &Initializer) -> &FragmentShaderInvocation {
    match init {
        Initializer::PaintFullScreen { shader } => &shader.invocation,
        Initializer::PaintToSelection { shader, .. } => &shader.invocation,
    }
}

fn knob_of(init: &Initializer) -> &KnobUser {
    match init {
        Initializer::PaintFullScreen { shader } => &shader.knob,
        Initializer::PaintToSelection { shader, .. } => &shader.knob,
    }
}

/// Walk a stream and re-check the operand discipline at runtime.
fn check_discipline(ops: &[High]) {
    let mut pending: usize = 0;
    for op in ops {
        match op {
            High::PushOperand(_) => pending += 1,
            High::DrawInto { fn_, .. } => {
                let expect = shader_of(fn_).num_args() as usize;
                assert_eq!(pending, expect, "each draw consumes exactly its operands");
                pending = 0;
            }
            _ => assert_eq!(pending, 0, "no operand outlives its bracket"),
        }
    }
    assert_eq!(pending, 0);

    // Each frame opens at the register it lowers and closes right after
    // publishing exactly that register; frames never nest.
    let mut open: Option<Register> = None;
    let mut done: Option<Register> = None;
    for op in ops {
        match op {
            High::StackPush(frame) => {
                assert!(open.is_none(), "frames do not nest");
                open = Some(frame.register);
            }
            High::Done(register) => {
                assert_eq!(open, Some(*register), "a frame publishes its own register");
                done = Some(*register);
            }
            High::StackPop => {
                assert_eq!(done, open, "the bracket closes right after publishing");
                open = None;
                done = None;
            }
            _ => {}
        }
    }
    assert!(open.is_none(), "every bracket is closed");
}

#[test]
fn inscribe_lowering_sequence() {
    let mut commands = CommandBuffer::create();
    let background = commands.input(rgba8(100, 100)).expect("background");
    let foreground = commands.input(rgba8(40, 30)).expect("foreground");
    let placement = Rectangle { x: 10, y: 20, max_x: 50, max_y: 50 };
    let result = commands
        .inscribe(background, placement, foreground)
        .expect("inscribe accepted at an offset");
    let (_, outformat) = commands.output(result).expect("output");
    assert_eq!(outformat.as_concrete(), Some(rgba8(100, 100)));

    let program = commands.compile().expect("linked");
    check_discipline(&program.ops);

    // The expected shape: both inputs, then the bracketed two-phase paint,
    // then the output.
    let kinds: Vec<&High> = program.ops.iter().collect();
    assert!(matches!(kinds[0], High::StackPush(_)));
    assert!(matches!(kinds[1], High::Input(Register(0))));
    let draws: Vec<&Initializer> = program
        .ops
        .iter()
        .filter_map(|op| match op {
            High::DrawInto { fn_, .. } => Some(fn_),
            _ => None,
        })
        .collect();
    assert_eq!(draws.len(), 2, "background paint and placed paint");
    match draws[0] {
        Initializer::PaintToSelection { selection, viewport, .. } => {
            assert_eq!(*selection, Rectangle { x: 0, y: 0, max_x: 100, max_y: 100 });
            assert_eq!(*viewport, Rectangle { x: 0, y: 0, max_x: 100, max_y: 100 });
        }
        other => panic!("unexpected first draw {:?}", other),
    }
    match draws[1] {
        Initializer::PaintToSelection { selection, target, .. } => {
            assert_eq!(*selection, Rectangle { x: 0, y: 0, max_x: 40, max_y: 30 });
            match target {
                QuadTarget::Rect(rect) => {
                    assert_eq!(*rect, Rectangle { x: 10, y: 20, max_x: 50, max_y: 50 });
                }
                other => panic!("unexpected target {:?}", other),
            }
        }
        other => panic!("unexpected second draw {:?}", other),
    }
    // The second draw loads the background phase instead of discarding it.
    let loads = program
        .ops
        .iter()
        .filter(|op| matches!(op, High::DrawInto { dst: Target::Load(_), .. }))
        .count();
    assert_eq!(loads, 1);
}

#[test]
fn resize_lowers_to_grid_and_palette() {
    let mut commands = CommandBuffer::create();
    let source = commands.input(rgba8(200, 200)).expect("source");
    let resized = commands.resize(source, (100, 100)).expect("resize");
    let (_, outformat) = commands.output(resized).expect("output");
    let concrete = outformat.as_concrete().expect("concrete output");
    assert_eq!(concrete.layout.width, 100);
    assert_eq!(concrete.layout.height, 100);

    let program = commands.compile().expect("linked");
    check_discipline(&program.ops);
    let draws: Vec<&Initializer> = program
        .ops
        .iter()
        .filter_map(|op| match op {
            High::DrawInto { fn_, .. } => Some(fn_),
            _ => None,
        })
        .collect();
    assert_eq!(draws.len(), 2, "the gradient construction and the palette draw");
    assert!(matches!(
        shader_of(draws[0]),
        FragmentShaderInvocation::Bilinear(_)
    ));
    assert!(matches!(
        shader_of(draws[1]),
        FragmentShaderInvocation::Palette(_)
    ));
}

#[test]
fn empty_selection_paints_nothing() {
    let mut commands = CommandBuffer::create();
    let source = commands.input(rgba8(16, 16)).expect("source");
    let empty = Rectangle { x: 5, y: 5, max_x: 2, max_y: 2 };
    let cropped = commands.crop(source, empty).expect("empty crops are accepted");
    let (_, _) = commands.output(cropped).expect("output");

    let program = commands.compile().expect("linked");
    check_discipline(&program.ops);
    let draws = program
        .ops
        .iter()
        .filter(|op| matches!(op, High::DrawInto { .. }))
        .count();
    assert_eq!(draws, 0, "an empty selection produces no draw");
}

#[test]
fn invoke_generic_identity_specializes_once() {
    // A generic identity function: one input, returned unchanged.
    let mut callee = CommandBuffer::create();
    let var = callee.generic(zosimos::command::GenericDeclaration { bounds: &[] });
    let parameter = callee.input_generic(var).expect("generic parameter");
    let (_, _) = callee.output(parameter).expect("returned");
    let signature = callee.computed_signature();

    let mut primary = CommandBuffer::create();
    let image = primary.input(rgba8(10, 10)).expect("argument");
    let argument_ty = primary.register_descriptor(image).expect("descriptor of argument");
    let function = primary.function(signature).expect("declared");
    let results = primary
        .invoke(
            function,
            InvocationArguments { generics: &[argument_ty], arguments: &[image] },
        )
        .expect("invoked");
    assert_eq!(results.len(), 1);
    let (_, outformat) = primary.output(results[0]).expect("output");
    assert_eq!(outformat.as_concrete(), Some(rgba8(10, 10)));

    // A second call at the same concrete types reuses the specialization.
    let again = primary
        .invoke(
            function,
            InvocationArguments { generics: &[argument_ty], arguments: &[image] },
        )
        .expect("invoked again");
    let _ = primary.output(again[0]).expect("second output");

    let links: Vec<Vec<usize>> = vec![vec![1]];
    let program = primary
        .link(&Vec::new(), std::slice::from_ref(&callee), &links)
        .expect("linked");
    check_discipline(&program.ops);
    assert_eq!(program.functions.len(), 2, "the primary and one specialization");

    // The call binds the argument in and the result out, and the result
    // slot is allocated uninitialized.
    let calls: Vec<_> = program
        .ops
        .iter()
        .filter_map(|op| match op {
            High::Call { function, image_io_buffers } => Some((function, image_io_buffers)),
            _ => None,
        })
        .collect();
    assert_eq!(calls.len(), 2, "both call sites");
    for call in &calls {
        assert_eq!(call.0 .0, 1, "both calls target the one specialization");
        assert_eq!(call.1.len(), 2);
        assert!(matches!(call.1[0], CallBinding::InTexture { .. }));
        assert!(matches!(call.1[1], CallBinding::OutTexture { .. }));
    }
    let uninits = program
        .ops
        .iter()
        .filter(|op| matches!(op, High::Uninit { .. }))
        .count();
    assert_eq!(uninits, 2, "each result texture awaits its call");
}

#[test]
fn knob_ids_are_dense_table_indices() {
    let mut commands = CommandBuffer::create();
    let red = [0x3F80_0000u32, 0, 0, 0x3F80_0000u32];
    let register = commands
        .with_knob()
        .solid_rgba(rgba8(4, 4), red)
        .expect("parameterized construct");
    let (_, _) = commands.output(register).expect("output");

    let program = commands.compile().expect("linked");
    check_discipline(&program.ops);
    assert_eq!(program.knobs.len(), 1);
    assert_eq!(program.knobs[0], RegisterKnob { link_idx: 0, register });

    // The draw reads its parameter block through knob zero, and the host
    // finds that id from the source register.
    let knob = program
        .knob_for_register(RegisterKnob { link_idx: 0, register })
        .expect("declared knob");
    assert_eq!(knob, Knob(0));
    let draw_knobs: Vec<&KnobUser> = program
        .ops
        .iter()
        .filter_map(|op| match op {
            High::DrawInto { fn_, .. } => Some(knob_of(fn_)),
            _ => None,
        })
        .collect();
    assert_eq!(draw_knobs.len(), 1);
    match draw_knobs[0] {
        KnobUser::Runtime(id) => assert_eq!(*id, Knob(0)),
        other => panic!("unexpected knob source {:?}", other),
    }
}

#[test]
fn knob_rebinding_changes_only_the_block() {
    // Two programs whose only difference is the solid color: the streams
    // have the same shape, and a launch rebinding the knob replaces just
    // the packed block.
    let red = [0x3F80_0000u32, 0, 0, 0x3F80_0000u32];
    let green = [0u32, 0x3F80_0000, 0, 0x3F80_0000];

    let mut first = CommandBuffer::create();
    let reg = first.with_knob().solid_rgba(rgba8(4, 4), red).expect("red");
    let _ = first.output(reg).expect("output");
    let first = first.compile().expect("linked");

    let mut second = CommandBuffer::create();
    let reg = second.with_knob().solid_rgba(rgba8(4, 4), green).expect("green");
    let _ = second.output(reg).expect("output");
    let second = second.compile().expect("linked");

    assert_eq!(first.ops.len(), second.ops.len());
    assert_eq!(first.knobs, second.knobs);
    for (a, b) in first.ops.iter().zip(second.ops.iter()) {
        match (a, b) {
            (High::DrawInto { fn_: fa, .. }, High::DrawInto { fn_: fb, .. }) => {
                assert_eq!(knob_of(fa), knob_of(fb));
                match (shader_of(fa), shader_of(fb)) {
                    (
                        FragmentShaderInvocation::SolidRgb(sa),
                        FragmentShaderInvocation::SolidRgb(sb),
                    ) => {
                        assert_eq!(sa.data.0, red);
                        assert_eq!(sb.data.0, green);
                        assert_eq!(sa.binary_data().len(), sb.binary_data().len());
                        assert_ne!(sa.binary_data(), sb.binary_data());
                    }
                    other => panic!("unexpected shaders {:?}", other),
                }
            }
            _ => {}
        }
    }
}

#[test]
fn liveness_intervals_start_at_the_definition() {
    let mut commands = CommandBuffer::create();
    let a = commands.input(rgba8(8, 8)).expect("input");
    let b = commands.crop(a, Rectangle { x: 0, y: 0, max_x: 4, max_y: 4 }).expect("crop");
    let _ = commands.output(b).expect("output");
    let last_use = zosimos::link::compute_liveness(&commands);
    // Register zero is read by the crop at index one; register one by the
    // output at index two; the output itself is never read.
    assert_eq!(last_use, vec![1, 2, 2]);
}

#[test]
fn color_convert_round_trip_builds() {
    let mut commands = CommandBuffer::create();
    let image = commands.input(rgba8(12, 12)).expect("input");
    let texel = Texel::new_u8(SampleParts::RgbA);
    let srgb = zosimos::color::Color::srgb();
    let there = commands
        .color_convert(image, zosimos::color::Color::Oklab, texel)
        .expect("to Oklab");
    let back = commands.color_convert(there, srgb, texel).expect("back to sRGB");
    let (_, outformat) = commands.output(back).expect("output");
    assert_eq!(outformat.as_concrete(), Some(rgba8(12, 12)));
    let program = commands.compile().expect("linked");
    check_discipline(&program.ops);
    // One Oklab encode draw and one decode draw.
    let mut encodes = 0;
    let mut decodes = 0;
    for op in &program.ops {
        if let High::DrawInto { fn_, .. } = op {
            if let FragmentShaderInvocation::Oklab(shader) = shader_of(fn_) {
                match shader.direction {
                    zosimos::shaders::oklab::Coding::Encode => encodes += 1,
                    zosimos::shaders::oklab::Coding::Decode => decodes += 1,
                }
            }
        }
    }
    assert_eq!((encodes, decodes), (1, 1));
}
