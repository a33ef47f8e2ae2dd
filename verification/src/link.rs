//! The linker and monomorphizer.
//!
//! Linking walks the primary command buffer, specializes every generic
//! function it invokes on demand — one linked function per distinct pair of
//! source buffer and concrete type arguments — and lowers each buffer into
//! the flat low-level stream, planning textures and buffers by the liveness
//! of the registers.
use vstd::prelude::*;

use crate::command::{
    op_wf, BinaryOp, BufferInitOp, CommandBuffer, ConstructOp, KnobKind, Op, OperandDynKind,
    Register, RegisterKnob, UnaryOp,
};
use crate::layout::Descriptor;
use crate::matrix::RowMatrix;
use crate::program::{
    emit_draw, emit_op, emit_selection_paint, knobs_below, no_trailing_operand,
    operand_discipline, spec_block_bracketed, BufferWrite, CallBinding, CompileError, Frame,
    Function, FunctionLinked, High, ImageBufferPlan, Initializer, Knob, KnobUser,
    ParameterizedFragment, Program, QuadTarget, Target, Texture,
};
use crate::rect::Rectangle;
use crate::shaders::{self, FragmentShaderInvocation, PaintOnTopKind};

verus! {

/// The linker refuses to specialize more functions than this: a guard that
/// keeps on-demand monomorphization from diverging on self-referential link
/// maps. Realistic programs hold few functions.
pub const MAX_FUNCTIONS: usize = 4096;

/// One requested specialization: the command buffer by its index in the
/// linked set, and the concrete type arguments.
pub struct LinkedMonomorphicSignature {
    pub link_idx: usize,
    pub tys: Vec<Descriptor>,
}

impl LinkedMonomorphicSignature {
    /// The mathematical key of the specialization.
    pub open spec fn key(self) -> (int, Seq<Descriptor>) {
        (self.link_idx as int, self.tys@)
    }
}

/// All recorded specializations carry distinct keys.
pub open spec fn spec_keys_distinct(keys: Seq<LinkedMonomorphicSignature>) -> bool {
    forall|a: int, b: int|
        0 <= a < b < keys.len() ==> (#[trigger] keys[a]).key() != (#[trigger] keys[b]).key()
}

/// Copy a vector of descriptors.
fn copy_descriptors(descs: &Vec<Descriptor>) -> (r: Vec<Descriptor>)
    ensures
        r@ == descs@,
{
    let mut out: Vec<Descriptor> = Vec::new();
    let mut i: usize = 0;
    while i < descs.len()
        invariant
            i <= descs@.len(),
            out@ == descs@.take(i as int),
        decreases descs@.len() - i,
    {
        out.push(descs[i]);
        proof {
            assert(descs@.take(i + 1) =~= descs@.take(i as int).push(descs@[i as int]));
        }
        i = i + 1;
    }
    proof {
        assert(descs@.take(descs@.len() as int) =~= descs@);
    }
    out
}

/// Whether two descriptor vectors hold the same descriptors.
fn descriptors_equal(a: &Vec<Descriptor>, b: &Vec<Descriptor>) -> (r: bool)
    ensures
        r == (a@ == b@),
{
    if a.len() != b.len() {
        proof {
            assert(a@ != b@);
        }
        return false;
    }
    let mut i: usize = 0;
    while i < a.len()
        invariant
            a@.len() == b@.len(),
            i <= a@.len(),
            forall|k: int| 0 <= k < i ==> a@[k] == b@[k],
        decreases a@.len() - i,
    {
        if a[i] != b[i] {
            proof {
                assert(a@[i as int] != b@[i as int]);
            }
            return false;
        }
        i = i + 1;
    }
    proof {
        assert(a@ =~= b@);
    }
    true
}

/// Assign a function index to a specific generic instantiation: the
/// existing one where the key was seen before, a fresh one otherwise. The
/// caller processes fresh entries in order, so the table doubles as the
/// work list.
fn push_function(keys: &mut Vec<LinkedMonomorphicSignature>, link_idx: usize, tys: Vec<Descriptor>)
    -> (r: Result<Function, CompileError>)
    requires
        spec_keys_distinct(old(keys)@),
        old(keys)@.len() <= MAX_FUNCTIONS,
    ensures
        spec_keys_distinct(final(keys)@),
        final(keys)@.len() <= MAX_FUNCTIONS,
        final(keys)@.len() >= old(keys)@.len(),
        final(keys)@.take(old(keys)@.len() as int) == old(keys)@,
        match r {
            Ok(func) => {
                &&& func.0 < final(keys)@.len()
                &&& final(keys)@[func.0 as int].key() == (link_idx as int, tys@)
            },
            Err(_) => final(keys)@ == old(keys)@,
        },
{
    let mut i: usize = 0;
    while i < keys.len()
        invariant
            keys@ == old(keys)@,
            spec_keys_distinct(keys@),
            keys@.len() <= MAX_FUNCTIONS,
            i <= keys@.len(),
            forall|k: int| 0 <= k < i ==> (#[trigger] keys@[k]).key() != (link_idx as int, tys@),
        decreases keys@.len() - i,
    {
        if keys[i].link_idx == link_idx && descriptors_equal(&keys[i].tys, &tys) {
            proof {
                assert(keys@.take(keys@.len() as int) =~= keys@);
            }
            return Ok(Function(i));
        }
        i = i + 1;
    }
    if keys.len() >= MAX_FUNCTIONS {
        proof {
            assert(keys@.take(keys@.len() as int) =~= keys@);
        }
        return Err(CompileError::NotYetImplemented);
    }
    let func = Function(keys.len());
    let ghost prior = keys@;
    keys.push(LinkedMonomorphicSignature { link_idx, tys });
    proof {
        assert(keys@.take(prior.len() as int) =~= prior);
        assert forall|a: int, b: int| 0 <= a < b < keys@.len() implies (
        #[trigger] keys@[a]).key() != (#[trigger] keys@[b]).key() by {
            if b < prior.len() {
                assert(keys@[a] == prior[a] && keys@[b] == prior[b]);
            } else {
                assert(keys@[a] == prior[a]);
                assert(keys@[b].key() == (link_idx as int, tys@));
            }
        }
    }
    Ok(func)
}

/// Whether the operation at one index reads the register.
pub open spec fn spec_op_reads(op: Op, r: int) -> bool {
    match op {
        Op::Input { .. } => false,
        Op::Output { src } => src.0 == r,
        Op::Render { src } => src.0 == r,
        Op::Construct { op, .. } => match op {
            ConstructOp::FromBuffer(buf) => buf.0 == r,
            _ => false,
        },
        Op::Unary { src, .. } => src.0 == r,
        Op::Binary { lhs, rhs, .. } => lhs.0 == r || rhs.0 == r,
        Op::DynamicImage { call, .. } => match call {
            OperandDynKind::Construct => false,
            OperandDynKind::Unary(src) => src.0 == r,
            OperandDynKind::Binary { lhs, rhs } => lhs.0 == r || rhs.0 == r,
        },
        Op::Invoke { arguments, .. } => exists|k: int|
            0 <= k < arguments@.len() && (#[trigger] arguments@[k]).0 == r,
        Op::InvokedResult { invocation, .. } => invocation.0 == r,
        Op::BufferInit { .. } => false,
        Op::BufferUnary { src, .. } => src.0 == r,
        Op::BufferBinary { lhs, rhs, .. } => lhs.0 == r || rhs.0 == r,
    }
}

/// Record one read of a register at an operation index.
fn bump_use(last_use: &mut Vec<usize>, reg: Register, i: usize)
    ensures
        final(last_use)@.len() == old(last_use)@.len(),
        forall|k: int|
            0 <= k < old(last_use)@.len() ==> #[trigger] final(last_use)@[k] >= old(last_use)@[k],
        reg.0 < old(last_use)@.len() ==> final(last_use)@[reg.0 as int] >= i,
        forall|k: int|
            0 <= k < old(last_use)@.len() ==> #[trigger] final(last_use)@[k] == old(last_use)@[k]
                || (k == reg.0 && final(last_use)@[k] == i),
{
    if reg.0 < last_use.len() {
        if last_use[reg.0] < i {
            last_use.set(reg.0, i);
        }
    }
}

/// Every register the operation reads has a recorded use of at least `i`.
pub open spec fn spec_op_bumped(op: Op, now: Seq<usize>, i: int) -> bool {
    forall|k: int| 0 <= k < now.len() && spec_op_reads(op, k) ==> #[trigger] now[k] >= i
}

/// The register defined at `r` holds a texture whose type is concrete
/// with a representable layout.
pub open spec fn spec_texture_concrete(ops: Seq<Op>, r: int) -> bool {
    crate::command::texture_desc_at(ops, r) matches Some(desc) && desc.spec_as_concrete() is Some
}

/// The register defined at `r` is a buffer initialization of concrete size.
pub open spec fn spec_buffer_init_concrete(ops: Seq<Op>, r: int) -> bool {
    &&& 0 <= r < ops.len()
    &&& ops[r] matches Op::BufferInit { desc, .. } && desc.size is Concrete
}

/// The node at `i` lowers without an error: every image type it touches is
/// concrete with a representable layout, and its operation is implemented.
/// Function calls and the byte-buffer image transfers never qualify — the
/// former need the link map, the latter are recognized but not lowered.
pub open spec fn spec_op_lowerable(cmd: CommandBuffer, i: int) -> bool {
    match cmd.ops@[i] {
        Op::Input { desc } => desc.spec_as_concrete() is Some,
        Op::Output { src } => spec_texture_concrete(cmd.ops@, src.0 as int),
        Op::Render { src } => spec_texture_concrete(cmd.ops@, src.0 as int),
        Op::Construct { desc, .. } => desc.spec_as_concrete() is Some,
        Op::Unary { src, op, desc } => {
            &&& spec_texture_concrete(cmd.ops@, src.0 as int)
            &&& desc.spec_as_concrete() is Some
            &&& match op {
                UnaryOp::Vignette(_) => false,
                UnaryOp::Derivative(derivative) => crate::command::spec_smoothing(
                    derivative.method,
                ) is Some,
                UnaryOp::ChromaticAdaptation(adaptation) => !(
                adaptation.method is BradfordNonLinear),
                _ => true,
            }
        },
        Op::Binary { lhs, rhs, op, desc } => {
            &&& spec_texture_concrete(cmd.ops@, lhs.0 as int)
            &&& spec_texture_concrete(cmd.ops@, rhs.0 as int)
            &&& desc.spec_as_concrete() is Some
            &&& match op {
                BinaryOp::GainMap(_) => false,
                BinaryOp::Affine(affine) => affine.sampling is Nearest,
                BinaryOp::Inject { from_channels, .. } => from_channels.spec_channel_weight_vec4()
                    is Some,
                _ => true,
            }
        },
        Op::DynamicImage { call, desc, .. } => {
            &&& desc.spec_as_concrete() is Some
            &&& match call {
                OperandDynKind::Construct => true,
                OperandDynKind::Unary(src) => spec_texture_concrete(cmd.ops@, src.0 as int),
                OperandDynKind::Binary { lhs, rhs } => spec_texture_concrete(
                    cmd.ops@,
                    lhs.0 as int,
                ) && spec_texture_concrete(cmd.ops@, rhs.0 as int),
            }
        },
        Op::InvokedResult { desc, .. } => desc.spec_as_concrete() is Some,
        Op::BufferInit { desc, .. } => desc.size is Concrete,
        Op::Invoke { .. } => false,
        Op::BufferUnary { .. } => false,
        Op::BufferBinary { .. } => false,
    }
}

/// Every parameter-block knob attached to the node at `i` can be resolved:
/// a runtime knob always, a buffer-sourced knob exactly when it reads from
/// a concrete buffer initialization and does not parameterize one itself.
pub open spec fn spec_knob_resolvable(cmd: CommandBuffer, i: int) -> bool {
    forall|k: int|
        0 <= k < cmd.knobs@.len() && (#[trigger] cmd.knobs@[k]).0.0 == i ==> match cmd.knobs@[k].1 {
            KnobKind::Runtime => true,
            KnobKind::Buffer { buffer, .. } => !(cmd.ops@[i] is BufferInit)
                && spec_buffer_init_concrete(cmd.ops@, buffer.0 as int),
        }
}

/// When the lowering of one buffer under one type assignment is owed to
/// succeed: the buffer is well formed, the arities match, and every node
/// is lowerable with resolvable knobs.
pub open spec fn spec_link_in_ready(
    cmd: CommandBuffer,
    tys: Seq<Descriptor>,
    functions_map: Seq<usize>,
) -> bool {
    &&& cmd.wf()
    &&& tys.len() == cmd.vars@.len()
    &&& functions_map.len() == cmd.symbols@.len()
    &&& forall|i: int| 0 <= i < cmd.ops@.len() ==> spec_op_lowerable(cmd, i)
    &&& forall|i: int| 0 <= i < cmd.ops@.len() ==> spec_knob_resolvable(cmd, i)
}

/// When compiling a buffer on its own is owed to succeed: no generic
/// parameters, no function declarations, and every node lowerable with
/// resolvable knobs.
pub open spec fn spec_standalone_linkable(cmd: CommandBuffer) -> bool {
    &&& cmd.wf()
    &&& cmd.vars@.len() == 0
    &&& cmd.symbols@.len() == 0
    &&& forall|i: int| 0 <= i < cmd.ops@.len() ==> spec_op_lowerable(cmd, i)
    &&& forall|i: int| 0 <= i < cmd.ops@.len() ==> spec_knob_resolvable(cmd, i)
}

/// Record every read of one operation.
fn bump_op(last_use: &mut Vec<usize>, op: &Op, i: usize)
    ensures
        final(last_use)@.len() == old(last_use)@.len(),
        forall|k: int|
            0 <= k < old(last_use)@.len() ==> #[trigger] final(last_use)@[k] >= old(last_use)@[k],
        spec_op_bumped(*op, final(last_use)@, i as int),
        forall|k: int|
            0 <= k < old(last_use)@.len() ==> #[trigger] final(last_use)@[k] == old(last_use)@[k]
                || (spec_op_reads(*op, k) && final(last_use)@[k] == i),
{
    match op {
        Op::Input { .. } => {},
        Op::BufferInit { .. } => {},
        Op::Output { src } => {
            bump_use(last_use, *src, i);
        },
        Op::Render { src } => {
            bump_use(last_use, *src, i);
        },
        Op::Construct { op: cop, .. } => {
            match cop {
                ConstructOp::FromBuffer(buf) => {
                    bump_use(last_use, *buf, i);
                },
                _ => {},
            }
        },
        Op::Unary { src, .. } => {
            bump_use(last_use, *src, i);
        },
        Op::Binary { lhs, rhs, .. } => {
            bump_use(last_use, *lhs, i);
            bump_use(last_use, *rhs, i);
        },
        Op::DynamicImage { call, .. } => {
            match call {
                OperandDynKind::Construct => {},
                OperandDynKind::Unary(src) => {
                    bump_use(last_use, *src, i);
                },
                OperandDynKind::Binary { lhs, rhs } => {
                    bump_use(last_use, *lhs, i);
                    bump_use(last_use, *rhs, i);
                },
            }
        },
        Op::Invoke { arguments, .. } => {
            let steps = last_use.len();
            let mut a: usize = 0;
            while a < arguments.len()
                invariant
                    *op matches Op::Invoke { arguments: own_args, .. } && own_args@
                        == arguments@,
                    a <= arguments@.len(),
                    last_use@.len() == steps,
                    forall|k: int|
                        0 <= k < steps ==> #[trigger] last_use@[k] >= old(last_use)@[k],
                    forall|k2: int|
                        0 <= k2 < a && (#[trigger] arguments@[k2]).0 < steps ==> last_use@[
                            arguments@[k2].0 as int
                        ] >= i,
                    forall|k: int|
                        0 <= k < steps ==> #[trigger] last_use@[k] == old(last_use)@[k] || (
                        spec_op_reads(*op, k) && last_use@[k] == i),
                decreases arguments@.len() - a,
            {
                let ghost before = last_use@;
                bump_use(last_use, arguments[a], i);
                proof {
                    assert forall|k2: int|
                        0 <= k2 < a + 1 && (#[trigger] arguments@[k2]).0 < steps implies last_use@[
                        arguments@[k2].0 as int
                    ] >= i by {
                        if k2 < a {
                            assert(before[arguments@[k2].0 as int] >= i);
                            assert(last_use@[arguments@[k2].0 as int] >= before[arguments@[k2].0 as int]);
                        }
                    }
                    assert forall|k: int|
                        0 <= k < steps implies #[trigger] last_use@[k] == old(last_use)@[k] || (
                        spec_op_reads(*op, k) && last_use@[k] == i) by {
                        if last_use@[k] != old(last_use)@[k] {
                            if before[k] != old(last_use)@[k] {
                                assert(spec_op_reads(*op, k) && before[k] == i);
                                assert(last_use@[k] == before[k] || (k == arguments@[a as int].0
                                    && last_use@[k] == i));
                            } else {
                                assert(k == arguments@[a as int].0 && last_use@[k] == i);
                                assert(0 <= a < arguments@.len() && arguments@[a as int].0 == k);
                            }
                        }
                    }
                }
                a = a + 1;
            }
            proof {
                assert forall|k: int|
                    0 <= k < last_use@.len() && spec_op_reads(*op, k) implies #[trigger] last_use@[k]
                    >= i by {
                    let k2 = choose|k2: int|
                        0 <= k2 < arguments@.len() && (#[trigger] arguments@[k2]).0 == k;
                    assert(arguments@[k2].0 < steps);
                }
            }
        },
        Op::InvokedResult { invocation, .. } => {
            bump_use(last_use, *invocation, i);
        },
        Op::BufferUnary { src, .. } => {
            bump_use(last_use, *src, i);
        },
        Op::BufferBinary { lhs, rhs, .. } => {
            bump_use(last_use, *lhs, i);
            bump_use(last_use, *rhs, i);
        },
    }
}

/// The liveness sweep: every register's interval starts at its defining
/// index and is extended to each later read.
///
/// The result maps every register to an index at least its own — the
/// definition precedes every use — and at least every operation reading
/// it, so the planner's intervals cover all readers.
pub fn compute_liveness(command: &CommandBuffer) -> (r: Vec<usize>)
    ensures
        r@.len() == command.ops@.len(),
        forall|k: int| 0 <= k < r@.len() ==> #[trigger] r@[k] >= k,
        forall|i: int|
            0 <= i < command.ops@.len() ==> spec_op_bumped(#[trigger] command.ops@[i], r@, i),
        forall|k: int|
            0 <= k < r@.len() ==> #[trigger] r@[k] == k || (r@[k] < r@.len() && spec_op_reads(
                command.ops@[r@[k] as int],
                k,
            )),
{
    let steps = command.ops.len();
    let mut last_use: Vec<usize> = Vec::new();
    let mut d: usize = 0;
    while d < steps
        invariant
            d <= steps,
            last_use@.len() == d,
            forall|k: int| 0 <= k < d ==> #[trigger] last_use@[k] == k,
        decreases steps - d,
    {
        last_use.push(d);
        d = d + 1;
    }
    let mut i: usize = 0;
    while i < steps
        invariant
            steps == command.ops@.len(),
            i <= steps,
            last_use@.len() == steps,
            forall|k: int| 0 <= k < steps ==> #[trigger] last_use@[k] >= k,
            forall|i2: int|
                0 <= i2 < i ==> spec_op_bumped(#[trigger] command.ops@[i2], last_use@, i2),
            forall|k: int|
                0 <= k < steps ==> #[trigger] last_use@[k] == k || (last_use@[k] < steps
                    && spec_op_reads(command.ops@[last_use@[k] as int], k)),
        decreases steps - i,
    {
        let ghost snap = last_use@;
        bump_op(&mut last_use, &command.ops[i], i);
        proof {
            assert forall|i2: int| 0 <= i2 < i + 1 implies spec_op_bumped(
                #[trigger] command.ops@[i2],
                last_use@,
                i2,
            ) by {
                if i2 < i {
                    assert(spec_op_bumped(command.ops@[i2], snap, i2));
                    assert forall|k: int|
                        0 <= k < last_use@.len() && spec_op_reads(
                            command.ops@[i2],
                            k,
                        ) implies #[trigger] last_use@[k] >= i2 by {
                        assert(snap[k] >= i2);
                        assert(last_use@[k] >= snap[k]);
                    }
                }
            }
            assert forall|k: int| 0 <= k < steps implies #[trigger] last_use@[k] == k || (
            last_use@[k] < steps && spec_op_reads(command.ops@[last_use@[k] as int], k)) by {
                if last_use@[k] != snap[k] {
                    assert(spec_op_reads(command.ops@[i as int], k) && last_use@[k] == i);
                }
            }
        }
        i = i + 1;
    }
    last_use
}


/// Copy a shader invocation, byte for byte.
fn copy_invocation(inv: &crate::shaders::ShaderInvocation) -> (r: crate::shaders::ShaderInvocation)
    ensures
        r.spirv@ == inv.spirv@,
        r.num_args == inv.num_args,
        match r.shader_data {
            Some(data) => inv.shader_data matches Some(own) && data@ == own@,
            None => inv.shader_data is None,
        },
{
    let spirv = crate::command::copy_bytes(inv.spirv.as_slice());
    let shader_data = match &inv.shader_data {
        Some(data) => Some(crate::command::copy_bytes(data.as_slice())),
        None => None,
    };
    crate::shaders::ShaderInvocation { spirv, shader_data, num_args: inv.num_args }
}

/// The parameter block attached to an operation, if the command buffer
/// declared one for the register it defines.
fn find_knob(knobs: &Vec<(Register, KnobKind)>, reg: usize) -> (r: Option<KnobKind>)
    ensures
        match r {
            Some(kind) => exists|k: int|
                0 <= k < knobs@.len() && #[trigger] knobs@[k] == (Register(reg), kind),
            None => forall|k: int| 0 <= k < knobs@.len() ==> (#[trigger] knobs@[k]).0 != Register(
                reg,
            ),
        },
{
    let mut i: usize = 0;
    while i < knobs.len()
        invariant
            i <= knobs@.len(),
            forall|k: int| 0 <= k < i ==> (#[trigger] knobs@[k]).0 != Register(reg),
        decreases knobs@.len() - i,
    {
        let (register, kind) = knobs[i];
        if register.0 == reg {
            proof {
                assert(knobs@[i as int] == (Register(reg), kind));
            }
            return Some(kind);
        }
        i = i + 1;
    }
    None
}

/// The texture of a register, realized on first demand from the register's
/// monomorphized descriptor and liveness interval.
fn realize_texture(
    command: &CommandBuffer,
    tys: &Vec<Descriptor>,
    plan: &mut ImageBufferPlan,
    last_use: &Vec<usize>,
    reg: Register,
) -> (r: Result<Texture, CompileError>)
    requires
        old(plan).wf(),
        old(plan).texture_by_register@.len() == command.ops@.len(),
        old(plan).buffer_by_register@.len() == command.ops@.len(),
        last_use@.len() == command.ops@.len(),
        forall|k: int| 0 <= k < last_use@.len() ==> #[trigger] last_use@[k] >= k,
    ensures
        final(plan).wf(),
        final(plan).texture_by_register@.len() == command.ops@.len(),
        final(plan).buffer_by_register@.len() == command.ops@.len(),
        final(plan).buffer_by_register@ == old(plan).buffer_by_register@,
        forall|k: int|
            0 <= k < old(plan).texture_by_register@.len() && k != reg.0
                ==> final(plan).texture_by_register@[k] == old(plan).texture_by_register@[k],
        match r {
            Ok(tex) => tex.0 < final(plan).textures@.len()
                && final(plan).texture_by_register@[reg.0 as int] == Some(tex),
            Err(_) => *final(plan) == *old(plan),
        },
        (crate::command::texture_desc_at(command.ops@, reg.0 as int) matches Some(desc)
            && desc.spec_wf(tys@.len() as int) && desc.spec_monomorphize(tys@) is Some) ==> r
            is Ok,
{
    let desc = match command.describe_reg(reg).as_texture() {
        Ok(desc) => *desc,
        Err(_) => {
            return Err(CompileError::NotYetImplemented);
        },
    };
    let mono = match desc.monomorphize_checked(tys) {
        Some(mono) => mono,
        None => {
            return Err(CompileError::NotYetImplemented);
        },
    };
    proof {
        assert(crate::command::texture_desc_at(command.ops@, reg.0 as int) is Some);
        assert(reg.0 < command.ops@.len());
    }
    let tex = plan.ensure_texture(&mono, reg.0, last_use[reg.0], reg);
    Ok(tex)
}

/// Brackets recorded on a stream stay intact when the stream is extended:
/// the bracket indices lie in the preserved prefix.
proof fn lemma_brackets_preserved(pre: Seq<High>, now: Seq<High>, blocks: Seq<int>, upto: int)
    requires
        pre.len() <= now.len(),
        forall|k: int| 0 <= k < pre.len() ==> #[trigger] now[k] == pre[k],
        upto + 1 <= blocks.len(),
        forall|j: int|
            0 <= j < upto ==> spec_block_bracketed(pre, #[trigger] blocks[j], blocks[j + 1], j),
    ensures
        forall|j: int|
            0 <= j < upto ==> spec_block_bracketed(now, #[trigger] blocks[j], blocks[j + 1], j),
{
    assert forall|j: int| 0 <= j < upto implies spec_block_bracketed(
        now,
        #[trigger] blocks[j],
        blocks[j + 1],
        j,
    ) by {
        assert(spec_block_bracketed(pre, blocks[j], blocks[j + 1], j));
        assert(now[blocks[j]] == pre[blocks[j]]);
        assert(now[blocks[j + 1] - 2] == pre[blocks[j + 1] - 2]);
        assert(now[blocks[j + 1] - 1] == pre[blocks[j + 1] - 1]);
    }
}


/// Lower one node of the command buffer: realize its resources and append
/// its low-level operations, between the brackets the caller emits.
///
/// Lowering is owed to succeed whenever the whole buffer is ready; every
/// appended operation keeps the operand discipline and the knob bound, and
/// a lowered node leaves its own register planned.
#[verifier::rlimit(100)]
fn lower_node(
    command: &CommandBuffer,
    tys: &Vec<Descriptor>,
    high_ops: &mut Vec<High>,
    keys: &mut Vec<LinkedMonomorphicSignature>,
    plan: &mut ImageBufferPlan,
    signature_in: &mut Vec<Register>,
    signature_out: &mut Vec<Register>,
    last_use: &Vec<usize>,
    i: usize,
    knob_user: KnobUser,
    functions_map: &[usize],
    nbuffers: usize,
    Ghost(bound): Ghost<int>,
) -> (r: Result<(), CompileError>)
    requires
        i < command.ops@.len(),
        last_use@.len() == command.ops@.len(),
        forall|k: int| 0 <= k < last_use@.len() ==> #[trigger] last_use@[k] >= k,
        old(plan).wf(),
        old(plan).texture_by_register@.len() == command.ops@.len(),
        old(plan).buffer_by_register@.len() == command.ops@.len(),
        operand_discipline(old(high_ops)@),
        no_trailing_operand(old(high_ops)@),
        knobs_below(old(high_ops)@, bound),
        match knob_user {
            KnobUser::Runtime(knob) => knob.0 < bound,
            _ => true,
        },
        spec_keys_distinct(old(keys)@),
        old(keys)@.len() <= MAX_FUNCTIONS,
        knob_user is Buffer ==> exists|k: int|
            0 <= k < command.knobs@.len() && (#[trigger] command.knobs@[k]).0.0 == i
                && command.knobs@[k].1 is Buffer,
        spec_link_in_ready(*command, tys@, functions_map@) ==> forall|r: int|
            0 <= r < i && #[trigger] spec_texture_concrete(command.ops@, r) ==> old(
                plan,
            ).texture_by_register@[r] is Some,
        spec_link_in_ready(*command, tys@, functions_map@) ==> forall|r: int|
            0 <= r < i && #[trigger] spec_buffer_init_concrete(command.ops@, r) ==> old(
                plan,
            ).buffer_by_register@[r] is Some,
    ensures
        operand_discipline(final(high_ops)@),
        no_trailing_operand(final(high_ops)@),
        knobs_below(final(high_ops)@, bound),
        final(high_ops)@.len() >= old(high_ops)@.len(),
        forall|k: int|
            0 <= k < old(high_ops)@.len() ==> #[trigger] final(high_ops)@[k] == old(high_ops)@[k],
        spec_keys_distinct(final(keys)@),
        final(keys)@.len() <= MAX_FUNCTIONS,
        final(keys)@.len() >= old(keys)@.len(),
        final(keys)@.take(old(keys)@.len() as int) == old(keys)@,
        !(command.ops@[i as int] is Invoke) ==> final(keys)@ == old(keys)@,
        final(plan).wf(),
        final(plan).texture_by_register@.len() == old(plan).texture_by_register@.len(),
        final(plan).buffer_by_register@.len() == old(plan).buffer_by_register@.len(),
        forall|r: int|
            0 <= r < old(plan).texture_by_register@.len() && old(plan).texture_by_register@[r]
                is Some ==> #[trigger] final(plan).texture_by_register@[r] is Some,
        forall|r: int|
            0 <= r < old(plan).buffer_by_register@.len() && old(plan).buffer_by_register@[r]
                is Some ==> #[trigger] final(plan).buffer_by_register@[r] is Some,
        r is Ok ==> (crate::command::texture_desc_at(command.ops@, i as int) is Some
            ==> final(plan).texture_by_register@[i as int] is Some),
        r is Ok ==> (command.ops@[i as int] is BufferInit
            ==> final(plan).buffer_by_register@[i as int] is Some),
        r is Ok ==> (command.ops@[i as int] matches Op::Unary {
            src,
            op: UnaryOp::Transmute,
            ..
        } ==> final(high_ops)@ == old(high_ops)@.push(High::Copy { src, dst: Register(i) })),
        r is Ok ==> (command.ops@[i as int] matches Op::Construct {
            op: ConstructOp::FromBuffer(src),
            ..
        } ==> final(high_ops)@ == old(high_ops)@.push(High::Copy { src, dst: Register(i) })),
        r is Ok ==> (command.ops@[i as int] is InvokedResult ==> final(high_ops)@.len() == old(
            high_ops,
        )@.len() + 1 && (final(high_ops)@.last() matches High::Uninit { dst: Target::Discard(t) }
            && final(plan).texture_by_register@[i as int] == Some(t))),
        r is Ok ==> (command.ops@[i as int] matches Op::Invoke { arguments, results, .. }
            ==> final(high_ops)@.len() == old(high_ops)@.len() + 1
            && (final(high_ops)@.last() matches High::Call { image_io_buffers, .. }
            && image_io_buffers@.len() == arguments@.len() + results@.len() && (forall|k: int|
            0 <= k < arguments@.len() ==> ((#[trigger] image_io_buffers@[k]) matches
                CallBinding::InTexture { register, .. } && register == arguments@[k])) && (forall|
            k: int,
        |
            0 <= k < results@.len() ==> ((#[trigger] image_io_buffers@[arguments@.len() + k])
                matches CallBinding::OutTexture { register, .. } && register == results@[k])))),
        r is Ok ==> (command.ops@[i as int] matches Op::Binary {
            lhs,
            rhs,
            op: BinaryOp::Inscribe { placement },
            ..
        } ==> ((crate::command::texture_desc_at(command.ops@, lhs.0 as int) matches Some(ld)
            && crate::command::texture_desc_at(command.ops@, rhs.0 as int) matches Some(rd)
            && ld.spec_monomorphize(tys@) matches Some(lc) && rd.spec_monomorphize(
            tys@,
        ) matches Some(rc) && final(plan).texture_by_register@[lhs.0 as int] matches Some(lt)
            && final(plan).texture_by_register@[rhs.0 as int] matches Some(rt)
            && final(plan).texture_by_register@[i as int] matches Some(own) && {
            let lower = Rectangle {
                x: 0,
                y: 0,
                max_x: lc.layout.width,
                max_y: lc.layout.height,
            };
            let upper = Rectangle {
                x: 0,
                y: 0,
                max_x: rc.layout.width,
                max_y: rc.layout.height,
            };
            (!lower.is_empty() && !upper.is_empty()) ==> final(high_ops)@ == old(high_ops)@.push(
                High::PushOperand(lt),
            ).push(
                High::DrawInto {
                    dst: Target::Discard(own),
                    fn_: Initializer::PaintToSelection {
                        texture: lt,
                        selection: lower,
                        target: QuadTarget::Rect(lower),
                        viewport: lower,
                        shader: ParameterizedFragment {
                            invocation: FragmentShaderInvocation::PaintOnTop(PaintOnTopKind::Copy),
                            knob: knob_user,
                        },
                    },
                },
            ).push(High::PushOperand(rt)).push(
                High::DrawInto {
                    dst: Target::Load(own),
                    fn_: Initializer::PaintToSelection {
                        texture: rt,
                        selection: upper,
                        target: QuadTarget::Rect(placement),
                        viewport: lower,
                        shader: ParameterizedFragment {
                            invocation: FragmentShaderInvocation::PaintOnTop(PaintOnTopKind::Copy),
                            knob: knob_user,
                        },
                    },
                },
            )
        }))),
        spec_link_in_ready(*command, tys@, functions_map@) ==> r is Ok,
{
    let steps = command.ops.len();
    let reg = Register(i);
    proof {
        assert(spec_link_in_ready(*command, tys@, functions_map@) ==> spec_op_lowerable(
            *command,
            i as int,
        ) && spec_knob_resolvable(*command, i as int) && op_wf(
            command.ops@,
            i as int,
            command.vars@.len() as int,
            command.symbols@.len() as int,
        ));
    }
    match &command.ops[i] {
        Op::Input { .. } => {
            match realize_texture(command, tys, plan, last_use, reg) {
                Ok(_) => {},
                Err(e) => {
                    return Err(e);
                },
            };
            emit_op(high_ops, High::Input(reg), Ghost(bound));
            signature_in.push(reg);
        },
        Op::Output { src } => {
            let src = *src;
            match realize_texture(command, tys, plan, last_use, src) {
                Ok(_) => {},
                Err(e) => {
                    return Err(e);
                },
            };
            signature_out.push(reg);
            emit_op(high_ops, High::Output { src, dst: reg }, Ghost(bound));
        },
        Op::Render { src } => {
            let src = *src;
            match realize_texture(command, tys, plan, last_use, src) {
                Ok(_) => {},
                Err(e) => {
                    return Err(e);
                },
            };
            emit_op(high_ops, High::Render { src, dst: reg }, Ghost(bound));
        },
        Op::Construct { op: cop, .. } => {
            let tex = match realize_texture(command, tys, plan, last_use, reg) {
                Ok(tex) => tex,
                Err(e) => {
                    return Err(e);
                },
            };
            match cop {
                ConstructOp::Bilinear(shader) => {
                    emit_draw(
                        high_ops,
                        &[],
                        Target::Discard(tex),
                        Initializer::PaintFullScreen {
                            shader: ParameterizedFragment {
                                invocation: FragmentShaderInvocation::Bilinear(*shader),
                                knob: knob_user,
                            },
                        },
                        Ghost(bound),
                    );
                },
                ConstructOp::DistributionNormal(shader) => {
                    emit_draw(
                        high_ops,
                        &[],
                        Target::Discard(tex),
                        Initializer::PaintFullScreen {
                            shader: ParameterizedFragment {
                                invocation: FragmentShaderInvocation::Normal2d(*shader),
                                knob: knob_user,
                            },
                        },
                        Ghost(bound),
                    );
                },
                ConstructOp::DistributionNoise(shader) => {
                    emit_draw(
                        high_ops,
                        &[],
                        Target::Discard(tex),
                        Initializer::PaintFullScreen {
                            shader: ParameterizedFragment {
                                invocation: FragmentShaderInvocation::FractalNoise(*shader),
                                knob: knob_user,
                            },
                        },
                        Ghost(bound),
                    );
                },
                ConstructOp::Solid(color) => {
                    emit_draw(
                        high_ops,
                        &[],
                        Target::Discard(tex),
                        Initializer::PaintFullScreen {
                            shader: ParameterizedFragment {
                                invocation: FragmentShaderInvocation::SolidRgb(
                                    shaders::solid_rgb::Shader::with_color(*color),
                                ),
                                knob: knob_user,
                            },
                        },
                        Ghost(bound),
                    );
                },
                ConstructOp::FromBuffer(src) => {
                    emit_op(high_ops, High::Copy { src: *src, dst: reg }, Ghost(bound));
                },
            }
        },
        Op::BufferInit { op: bop, .. } => {
            let len = {
                let desc = match command.describe_reg(reg).as_buffer() {
                    Ok(desc) => *desc,
                    Err(_) => {
                        return Err(CompileError::NotYetImplemented);
                    },
                };
                match desc.monomorphize_checked(tys) {
                    Some(len) => len,
                    None => {
                        return Err(CompileError::NotYetImplemented);
                    },
                }
            };
            proof {
                assert(crate::command::buffer_desc_at(command.ops@, reg.0 as int) is Some);
            }
            let buf = plan.ensure_buffer(len, i, last_use[i], reg);
            emit_op(
                high_ops,
                High::WriteInto { dst: buf, fn_: BufferWrite::Zero },
                Ghost(bound),
            );
            let BufferInitOp::FromData { start: dstart, end: dend, data } = match &command
                .ops[i] {
                Op::BufferInit { op: bop2, .. } => bop2,
                _ => {
                    return Err(CompileError::NotYetImplemented);
                },
            };
            let put_knob = match knob_user {
                KnobUser::NoKnob => None,
                KnobUser::Runtime(k) => Some(k),
                KnobUser::Buffer { .. } => {
                    // A buffer initialized from a buffer has no meaning.
                    proof {
                        if spec_link_in_ready(*command, tys@, functions_map@) {
                            assert(exists|k: int|
                                0 <= k < command.knobs@.len() && (
                                #[trigger] command.knobs@[k]).0.0 == i
                                    && command.knobs@[k].1 is Buffer);
                            let k = choose|k: int|
                                0 <= k < command.knobs@.len() && (
                                #[trigger] command.knobs@[k]).0.0 == i
                                    && command.knobs@[k].1 is Buffer;
                            assert(spec_knob_resolvable(*command, i as int));
                            assert(false);
                        }
                    }
                    return Err(CompileError::NotYetImplemented);
                },
            };
            emit_op(
                high_ops,
                High::WriteInto {
                    dst: buf,
                    fn_: BufferWrite::Put {
                        start: *dstart,
                        end: *dend,
                        data: crate::command::copy_bytes(data.as_slice()),
                        knob: put_knob,
                    },
                },
                Ghost(bound),
            );
        },
        Op::Unary { src, op: uop, .. } => {
            let src = *src;
            let tex = match realize_texture(command, tys, plan, last_use, reg) {
                Ok(tex) => tex,
                Err(e) => {
                    return Err(e);
                },
            };
            let src_tex = match plan.texture_of(src) {
                Some(tex) => tex,
                None => {
                    return Err(CompileError::NotYetImplemented);
                },
            };
            match uop {
                UnaryOp::Crop(region) => {
                    let region = *region;
                    let target = Rectangle::with_width_height(region.width(), region.height());
                    emit_selection_paint(
                        high_ops,
                        src_tex,
                        Target::Discard(tex),
                        region,
                        QuadTarget::Rect(target),
                        target,
                        ParameterizedFragment {
                            invocation: FragmentShaderInvocation::PaintOnTop(
                                PaintOnTopKind::Copy,
                            ),
                            knob: knob_user,
                        },
                        Ghost(bound),
                    );
                },
                UnaryOp::ColorConvert(conversion) => {
                    let invocation = conversion.to_shader();
                    proof {
                        assert(invocation.spec_num_args() == 1);
                    }
                    emit_draw(
                        high_ops,
                        &[src_tex],
                        Target::Discard(tex),
                        Initializer::PaintFullScreen {
                            shader: ParameterizedFragment { invocation, knob: knob_user },
                        },
                        Ghost(bound),
                    );
                },
                UnaryOp::Extract { .. } => {
                    // The staging of the result grabs the right channel;
                    // the draw copies all of them.
                    emit_draw(
                        high_ops,
                        &[src_tex],
                        Target::Discard(tex),
                        Initializer::PaintFullScreen {
                            shader: ParameterizedFragment {
                                invocation: FragmentShaderInvocation::PaintOnTop(
                                    PaintOnTopKind::Copy,
                                ),
                                knob: knob_user,
                            },
                        },
                        Ghost(bound),
                    );
                },
                UnaryOp::ChromaticAdaptation(adaptation) => {
                    // Convert to XYZ, adapt the whitepoint, convert back:
                    // one linear color matrix.
                    let adapt = match crate::color::adaptation_matrix(
                        &adaptation.method,
                        adaptation.source,
                        adaptation.target,
                    ) {
                        Some(adapt) => adapt,
                        None => {
                            return Err(CompileError::NotYetImplemented);
                        },
                    };
                    let output = adapt.multiply_right(adaptation.to_xyz_matrix.to_col());
                    let matrix = adaptation.from_xyz_matrix.multiply_right(output).to_row();
                    emit_draw(
                        high_ops,
                        &[src_tex],
                        Target::Discard(tex),
                        Initializer::PaintFullScreen {
                            shader: ParameterizedFragment {
                                invocation: FragmentShaderInvocation::LinearColorMatrix(
                                    shaders::LinearColorTransform { matrix },
                                ),
                                knob: knob_user,
                            },
                        },
                        Ghost(bound),
                    );
                },
                UnaryOp::Vignette(_) => {
                    // Recognized, not yet lowered.
                    return Err(CompileError::NotYetImplemented);
                },
                UnaryOp::Transmute => {
                    emit_op(high_ops, High::Copy { src, dst: reg }, Ghost(bound));
                },
                UnaryOp::Derivative(derivative) => {
                    let invocation = match derivative.method.to_shader(derivative.direction) {
                        Ok(invocation) => invocation,
                        Err(e) => {
                            return Err(e);
                        },
                    };
                    emit_draw(
                        high_ops,
                        &[src_tex],
                        Target::Discard(tex),
                        Initializer::PaintFullScreen {
                            shader: ParameterizedFragment { invocation, knob: knob_user },
                        },
                        Ghost(bound),
                    );
                },
            }
        },
        Op::Binary { lhs, rhs, op: bop, .. } => {
            let lhs = *lhs;
            let rhs = *rhs;
            let tex = match realize_texture(command, tys, plan, last_use, reg) {
                Ok(tex) => tex,
                Err(e) => {
                    return Err(e);
                },
            };
            let lhs_tex = match plan.texture_of(lhs) {
                Some(tex) => tex,
                None => {
                    return Err(CompileError::NotYetImplemented);
                },
            };
            let rhs_tex = match plan.texture_of(rhs) {
                Some(tex) => tex,
                None => {
                    return Err(CompileError::NotYetImplemented);
                },
            };
            let lower_region = {
                let desc = match command.describe_reg(lhs).as_texture() {
                    Ok(desc) => *desc,
                    Err(_) => {
                        return Err(CompileError::NotYetImplemented);
                    },
                };
                match desc.monomorphize_checked(tys) {
                    Some(mono) => Rectangle::with_width_height(
                        mono.layout.width,
                        mono.layout.height,
                    ),
                    None => {
                        return Err(CompileError::NotYetImplemented);
                    },
                }
            };
            let upper_region = {
                let desc = match command.describe_reg(rhs).as_texture() {
                    Ok(desc) => *desc,
                    Err(_) => {
                        return Err(CompileError::NotYetImplemented);
                    },
                };
                match desc.monomorphize_checked(tys) {
                    Some(mono) => Rectangle::with_width_height(
                        mono.layout.width,
                        mono.layout.height,
                    ),
                    None => {
                        return Err(CompileError::NotYetImplemented);
                    },
                }
            };
            match bop {
                BinaryOp::Affine(affine) => {
                    let affine = *affine;
                    emit_selection_paint(
                        high_ops,
                        lhs_tex,
                        Target::Discard(tex),
                        lower_region,
                        QuadTarget::Rect(lower_region),
                        lower_region,
                        ParameterizedFragment {
                            invocation: FragmentShaderInvocation::PaintOnTop(
                                PaintOnTopKind::Copy,
                            ),
                            knob: knob_user,
                        },
                        Ghost(bound),
                    );
                    let kind = match affine.sampling.as_paint_on_top() {
                        Ok(kind) => kind,
                        Err(e) => {
                            return Err(e);
                        },
                    };
                    let quad = QuadTarget::of_rect(upper_region).affine(
                        &RowMatrix::new(affine.transformation),
                    );
                    emit_selection_paint(
                        high_ops,
                        rhs_tex,
                        Target::Load(tex),
                        upper_region,
                        quad,
                        lower_region,
                        ParameterizedFragment {
                            invocation: FragmentShaderInvocation::PaintOnTop(kind),
                            knob: knob_user,
                        },
                        Ghost(bound),
                    );
                },
                BinaryOp::Inscribe { placement } => {
                    let placement = *placement;
                    emit_selection_paint(
                        high_ops,
                        lhs_tex,
                        Target::Discard(tex),
                        lower_region,
                        QuadTarget::Rect(lower_region),
                        lower_region,
                        ParameterizedFragment {
                            invocation: FragmentShaderInvocation::PaintOnTop(
                                PaintOnTopKind::Copy,
                            ),
                            knob: knob_user,
                        },
                        Ghost(bound),
                    );
                    emit_selection_paint(
                        high_ops,
                        rhs_tex,
                        Target::Load(tex),
                        upper_region,
                        QuadTarget::Rect(placement),
                        lower_region,
                        ParameterizedFragment {
                            invocation: FragmentShaderInvocation::PaintOnTop(
                                PaintOnTopKind::Copy,
                            ),
                            knob: knob_user,
                        },
                        Ghost(bound),
                    );
                },
                BinaryOp::Inject { channel, from_channels } => {
                    let weights = match from_channels.channel_weight_vec4() {
                        Some(weights) => weights,
                        None => {
                            return Err(CompileError::NotYetImplemented);
                        },
                    };
                    emit_draw(
                        high_ops,
                        &[lhs_tex, rhs_tex],
                        Target::Discard(tex),
                        Initializer::PaintFullScreen {
                            shader: ParameterizedFragment {
                                invocation: FragmentShaderInvocation::Inject(
                                    shaders::inject::Shader {
                                        data: shaders::inject::ShaderData {
                                            mix: channel.into_vec4(),
                                            color: weights,
                                        },
                                    },
                                ),
                                knob: knob_user,
                            },
                        },
                        Ghost(bound),
                    );
                },
                BinaryOp::Palette(shader) => {
                    emit_draw(
                        high_ops,
                        &[lhs_tex, rhs_tex],
                        Target::Load(tex),
                        Initializer::PaintFullScreen {
                            shader: ParameterizedFragment {
                                invocation: FragmentShaderInvocation::Palette(*shader),
                                knob: knob_user,
                            },
                        },
                        Ghost(bound),
                    );
                },
                BinaryOp::GainMap(_) => {
                    // Recognized, not yet lowered.
                    return Err(CompileError::NotYetImplemented);
                },
            }
        },
        Op::DynamicImage { call, command: invocation, .. } => {
            let tex = match realize_texture(command, tys, plan, last_use, reg) {
                Ok(tex) => tex,
                Err(e) => {
                    return Err(e);
                },
            };
            let runtime = copy_invocation(invocation);
            match call {
                OperandDynKind::Construct => {
                    if runtime.num_args != 0 {
                        return Err(CompileError::NotYetImplemented);
                    }
                    emit_draw(
                        high_ops,
                        &[],
                        Target::Discard(tex),
                        Initializer::PaintFullScreen {
                            shader: ParameterizedFragment {
                                invocation: FragmentShaderInvocation::Runtime(runtime),
                                knob: knob_user,
                            },
                        },
                        Ghost(bound),
                    );
                },
                OperandDynKind::Unary(src) => {
                    if runtime.num_args != 1 {
                        return Err(CompileError::NotYetImplemented);
                    }
                    let src_tex = match plan.texture_of(*src) {
                        Some(tex) => tex,
                        None => {
                            return Err(CompileError::NotYetImplemented);
                        },
                    };
                    emit_draw(
                        high_ops,
                        &[src_tex],
                        Target::Discard(tex),
                        Initializer::PaintFullScreen {
                            shader: ParameterizedFragment {
                                invocation: FragmentShaderInvocation::Runtime(runtime),
                                knob: knob_user,
                            },
                        },
                        Ghost(bound),
                    );
                },
                OperandDynKind::Binary { lhs, rhs } => {
                    if runtime.num_args != 2 {
                        return Err(CompileError::NotYetImplemented);
                    }
                    let lhs_tex = match plan.texture_of(*lhs) {
                        Some(tex) => tex,
                        None => {
                            return Err(CompileError::NotYetImplemented);
                        },
                    };
                    let rhs_tex = match plan.texture_of(*rhs) {
                        Some(tex) => tex,
                        None => {
                            return Err(CompileError::NotYetImplemented);
                        },
                    };
                    emit_draw(
                        high_ops,
                        &[lhs_tex, rhs_tex],
                        Target::Discard(tex),
                        Initializer::PaintFullScreen {
                            shader: ParameterizedFragment {
                                invocation: FragmentShaderInvocation::Runtime(runtime),
                                knob: knob_user,
                            },
                        },
                        Ghost(bound),
                    );
                },
            }
        },
        Op::InvokedResult { .. } => {
            let tex = match realize_texture(command, tys, plan, last_use, reg) {
                Ok(tex) => tex,
                Err(e) => {
                    return Err(e);
                },
            };
            emit_op(high_ops, High::Uninit { dst: Target::Discard(tex) }, Ghost(bound));
        },
        Op::Invoke { function, arguments, results, generics } => {
            proof {
                // A call is never lowerable on its own: linking it needs
                // the link map, so readiness excludes this node.
                if spec_link_in_ready(*command, tys@, functions_map@) {
                    assert(spec_op_lowerable(*command, i as int));
                    assert(false);
                }
            }
            let mut mono_tys: Vec<Descriptor> = Vec::new();
            let mut g: usize = 0;
            while g < generics.len()
                invariant
                    !spec_link_in_ready(*command, tys@, functions_map@),
                    command.ops@[i as int] is Invoke,
                    i < command.ops@.len(),
                    g <= generics@.len(),
                    operand_discipline(old(high_ops)@),
                    no_trailing_operand(old(high_ops)@),
                    knobs_below(old(high_ops)@, bound),
                    high_ops@ == old(high_ops)@,
                    keys@ == old(keys)@,
                    keys@.take(old(keys)@.len() as int) == old(keys)@,
                    spec_keys_distinct(keys@),
                    keys@.len() <= MAX_FUNCTIONS,
                    old(plan).wf(),
                    *plan == *old(plan),
                decreases generics@.len() - g,
            {
                match generics[g].monomorphize_checked(tys) {
                    Some(mono) => {
                        mono_tys.push(mono);
                    },
                    None => {
                        return Err(CompileError::NotYetImplemented);
                    },
                }
                g = g + 1;
            }
            if function.0 >= functions_map.len() {
                return Err(CompileError::NotYetImplemented);
            }
            let link_idx = functions_map[function.0];
            if link_idx >= nbuffers {
                return Err(CompileError::NotYetImplemented);
            }
            let func = match push_function(keys, link_idx, mono_tys) {
                Ok(func) => func,
                Err(e) => {
                    return Err(e);
                },
            };
            let mut image_io: Vec<CallBinding> = Vec::new();
            let mut a: usize = 0;
            while a < arguments.len()
                invariant
                    !spec_link_in_ready(*command, tys@, functions_map@),
                    a <= arguments@.len(),
                    image_io@.len() == a,
                    forall|k: int|
                        0 <= k < a ==> ((#[trigger] image_io@[k]) matches CallBinding::InTexture {
                            register,
                            ..
                        } && register == arguments@[k]),
                    command.ops@[i as int] is Invoke,
                    i < command.ops@.len(),
                    old(plan).texture_by_register@.len() == command.ops@.len(),
                    old(plan).buffer_by_register@.len() == command.ops@.len(),
                    operand_discipline(old(high_ops)@),
                    no_trailing_operand(old(high_ops)@),
                    knobs_below(old(high_ops)@, bound),
                    high_ops@ == old(high_ops)@,
                    spec_keys_distinct(keys@),
                    keys@.len() <= MAX_FUNCTIONS,
                    keys@.len() >= old(keys)@.len(),
                    keys@.take(old(keys)@.len() as int) == old(keys)@,
                    plan.wf(),
                    plan.texture_by_register@.len() == old(plan).texture_by_register@.len(),
                    plan.buffer_by_register@.len() == old(plan).buffer_by_register@.len(),
                    plan.buffer_by_register@ == old(plan).buffer_by_register@,
                    forall|r2: int|
                        0 <= r2 < old(plan).texture_by_register@.len() && old(
                            plan,
                        ).texture_by_register@[r2] is Some
                            ==> #[trigger] plan.texture_by_register@[r2] is Some,
                    steps == command.ops@.len(),
                    last_use@.len() == steps,
                    forall|k: int| 0 <= k < steps ==> #[trigger] last_use@[k] >= k,
                decreases arguments@.len() - a,
            {
                let argument = arguments[a];
                // Arguments must precede the call and be laid out.
                if argument.0 >= i {
                    return Err(CompileError::NotYetImplemented);
                }
                let texture = match realize_texture(
                    command,
                    tys,
                    plan,
                    last_use,
                    argument,
                ) {
                    Ok(texture) => texture,
                    Err(e) => {
                        return Err(e);
                    },
                };
                image_io.push(CallBinding::InTexture { register: argument, texture });
                a = a + 1;
            }
            let mut o: usize = 0;
            while o < results.len()
                invariant
                    !spec_link_in_ready(*command, tys@, functions_map@),
                    o <= results@.len(),
                    image_io@.len() == arguments@.len() + o,
                    forall|k: int|
                        0 <= k < arguments@.len() ==> ((
                        #[trigger] image_io@[k]) matches CallBinding::InTexture {
                            register,
                            ..
                        } && register == arguments@[k]),
                    forall|k: int|
                        0 <= k < o ==> ((#[trigger] image_io@[arguments@.len() + k]) matches
                            CallBinding::OutTexture { register, .. } && register == results@[k]),
                    command.ops@[i as int] is Invoke,
                    i < command.ops@.len(),
                    old(plan).texture_by_register@.len() == command.ops@.len(),
                    old(plan).buffer_by_register@.len() == command.ops@.len(),
                    operand_discipline(old(high_ops)@),
                    no_trailing_operand(old(high_ops)@),
                    knobs_below(old(high_ops)@, bound),
                    high_ops@ == old(high_ops)@,
                    spec_keys_distinct(keys@),
                    keys@.len() <= MAX_FUNCTIONS,
                    keys@.len() >= old(keys)@.len(),
                    keys@.take(old(keys)@.len() as int) == old(keys)@,
                    plan.wf(),
                    plan.texture_by_register@.len() == old(plan).texture_by_register@.len(),
                    plan.buffer_by_register@.len() == old(plan).buffer_by_register@.len(),
                    plan.buffer_by_register@ == old(plan).buffer_by_register@,
                    forall|r2: int|
                        0 <= r2 < old(plan).texture_by_register@.len() && old(
                            plan,
                        ).texture_by_register@[r2] is Some
                            ==> #[trigger] plan.texture_by_register@[r2] is Some,
                    steps == command.ops@.len(),
                    last_use@.len() == steps,
                    forall|k: int| 0 <= k < steps ==> #[trigger] last_use@[k] >= k,
                decreases results@.len() - o,
            {
                let result = results[o];
                // Results are laid out before the call and defined on
                // return.
                if result.0 >= i {
                    return Err(CompileError::NotYetImplemented);
                }
                let texture = match realize_texture(command, tys, plan, last_use, result)
                    {
                    Ok(texture) => texture,
                    Err(e) => {
                        return Err(e);
                    },
                };
                image_io.push(CallBinding::OutTexture { register: result, texture });
                o = o + 1;
            }
            emit_op(
                high_ops,
                High::Call { function: func, image_io_buffers: image_io },
                Ghost(bound),
            );
        },
        Op::BufferUnary { .. } => {
            // Encoding a texture back into a byte buffer is recognized
            // but not lowered yet.
            return Err(CompileError::NotYetImplemented);
        },
        Op::BufferBinary { .. } => {
            // Overlaying byte buffers on the device is recognized but
            // not lowered yet.
            return Err(CompileError::NotYetImplemented);
        },
    }
    Ok(())
}

/// Lower one command buffer under one type assignment, appending to the
/// flat operation stream.
///
/// Every appended operation keeps the operand discipline and the knob
/// bound, every new specialization key is recorded uniquely, and the
/// returned function's range covers exactly the appended operations.
#[verifier::rlimit(100)]
fn link_in(
    command: &CommandBuffer,
    tys: &Vec<Descriptor>,
    high_ops: &mut Vec<High>,
    keys: &mut Vec<LinkedMonomorphicSignature>,
    knobs: &mut Vec<RegisterKnob>,
    current_link: usize,
    functions_map: &[usize],
    nbuffers: usize,
) -> (r: Result<FunctionLinked, CompileError>)
    requires
        operand_discipline(old(high_ops)@),
        no_trailing_operand(old(high_ops)@),
        knobs_below(old(high_ops)@, old(knobs)@.len() as int),
        spec_keys_distinct(old(keys)@),
        old(keys)@.len() <= MAX_FUNCTIONS,
    ensures
        match r {
            Ok(linked) => {
                &&& operand_discipline(final(high_ops)@)
                &&& no_trailing_operand(final(high_ops)@)
                &&& knobs_below(final(high_ops)@, final(knobs)@.len() as int)
                &&& spec_keys_distinct(final(keys)@)
                &&& final(keys)@.len() <= MAX_FUNCTIONS
                &&& final(keys)@.len() >= old(keys)@.len()
                &&& final(keys)@.take(old(keys)@.len() as int) == old(keys)@
                &&& final(knobs)@.len() >= old(knobs)@.len()
                &&& final(high_ops)@.len() >= old(high_ops)@.len()
                &&& linked.ops_start == old(high_ops)@.len()
                &&& linked.ops_end == final(high_ops)@.len()
                &&& linked.image_buffers.wf()
                &&& linked.blocks@.len() == command.ops@.len() + 1
                &&& linked.blocks@[0] == linked.ops_start
                &&& linked.blocks@[command.ops@.len() as int] == linked.ops_end
                &&& forall|j: int|
                    0 <= j < command.ops@.len() ==> spec_block_bracketed(
                        final(high_ops)@,
                        #[trigger] linked.blocks@[j],
                        linked.blocks@[j + 1],
                        j,
                    )
                &&& ((forall|j: int|
                    0 <= j < command.ops@.len() ==> !(#[trigger] command.ops@[j] is Invoke))
                    ==> final(keys)@ == old(keys)@)
            },
            Err(_) => true,
        },
        spec_link_in_ready(*command, tys@, functions_map@) ==> r is Ok,
{
    if functions_map.len() != command.symbols.len() {
        return Err(CompileError::NotYetImplemented);
    }
    if tys.len() != command.vars.len() {
        return Err(CompileError::NotYetImplemented);
    }
    let steps = command.ops.len();
    let last_use = compute_liveness(command);
    let mut plan = ImageBufferPlan::new(steps);
    let mut signature_in: Vec<Register> = Vec::new();
    let mut signature_out: Vec<Register> = Vec::new();
    let start = high_ops.len();
    let ghost mut blocks: Seq<int> = seq![start as int];
    let mut i: usize = 0;
    while i < steps
        invariant
            steps == command.ops@.len(),
            tys@.len() == command.vars@.len(),
            functions_map@.len() == command.symbols@.len(),
            i <= steps,
            last_use@.len() == steps,
            forall|k: int| 0 <= k < steps ==> #[trigger] last_use@[k] >= k,
            plan.wf(),
            plan.texture_by_register@.len() == steps,
            plan.buffer_by_register@.len() == steps,
            operand_discipline(high_ops@),
            no_trailing_operand(high_ops@),
            knobs_below(high_ops@, knobs@.len() as int),
            spec_keys_distinct(keys@),
            keys@.len() <= MAX_FUNCTIONS,
            keys@.len() >= old(keys)@.len(),
            keys@.take(old(keys)@.len() as int) == old(keys)@,
            knobs@.len() >= old(knobs)@.len(),
            high_ops@.len() >= start,
            start == old(high_ops)@.len(),
            (exists|j: int| 0 <= j < i && #[trigger] command.ops@[j] is Invoke) || keys@ == old(
                keys,
            )@,
            blocks.len() == i + 1,
            blocks[0] == start,
            blocks[i as int] == high_ops@.len(),
            forall|j: int|
                0 <= j < i ==> spec_block_bracketed(
                    high_ops@,
                    #[trigger] blocks[j],
                    blocks[j + 1],
                    j,
                ),
            spec_link_in_ready(*command, tys@, functions_map@) ==> forall|r: int|
                0 <= r < i && #[trigger] spec_texture_concrete(command.ops@, r)
                    ==> plan.texture_by_register@[r] is Some,
            spec_link_in_ready(*command, tys@, functions_map@) ==> forall|r: int|
                0 <= r < i && #[trigger] spec_buffer_init_concrete(command.ops@, r)
                    ==> plan.buffer_by_register@[r] is Some,
        decreases steps - i,
    {
        let reg = Register(i);
        let ghost pre = high_ops@;
        proof {
            assert(spec_link_in_ready(*command, tys@, functions_map@) ==> spec_op_lowerable(
                *command,
                i as int,
            ) && spec_knob_resolvable(*command, i as int) && op_wf(
                command.ops@,
                i as int,
                command.vars@.len() as int,
                command.symbols@.len() as int,
            ));
        }
        let ghost knob_bound0 = knobs@.len() as int;
        let found = find_knob(&command.knobs, i);
        let knob_user = match found {
            None => KnobUser::NoKnob,
            Some(KnobKind::Runtime) => {
                let fresh = Knob(knobs.len());
                knobs.push(RegisterKnob { link_idx: current_link, register: reg });
                proof {
                    crate::program::lemma_knobs_below_mono(
                        high_ops@,
                        knob_bound0,
                        knobs@.len() as int,
                    );
                }
                KnobUser::Runtime(fresh)
            },
            Some(KnobKind::Buffer { buffer, start: kstart, end: kend }) => {
                match plan.buffer_of(buffer) {
                    Some(planned) => KnobUser::Buffer { buffer: planned, start: kstart, end: kend },
                    None => {
                        proof {
                            if spec_link_in_ready(*command, tys@, functions_map@) {
                                let kind = KnobKind::Buffer {
                                    buffer,
                                    start: kstart,
                                    end: kend,
                                };
                                let k = choose|k: int|
                                    0 <= k < command.knobs@.len() && #[trigger] command.knobs@[k]
                                        == (Register(i), kind);
                                assert(command.knobs@[k] == (Register(i), kind));
                                assert(spec_knob_resolvable(*command, i as int));
                                assert(spec_buffer_init_concrete(command.ops@, buffer.0 as int));
                                assert(buffer.0 < i);
                                assert(false);
                            }
                        }
                        return Err(CompileError::NotYetImplemented);
                    },
                }
            },
        };
        let ghost bound = knobs@.len() as int;
        proof {
            assert(crate::program::op_knobs_below(High::StackPush(Frame { register: reg }), bound));
        }
        emit_op(high_ops, High::StackPush(Frame { register: reg }), Ghost(bound));
        proof {
            if knob_user is Buffer {
                assert(found matches Some(kind) && kind is Buffer);
            }
        }
        match lower_node(
            command,
            tys,
            high_ops,
            keys,
            &mut plan,
            &mut signature_in,
            &mut signature_out,
            &last_use,
            i,
            knob_user,
            functions_map,
            nbuffers,
            Ghost(bound),
        ) {
            Ok(()) => {},
            Err(e) => {
                return Err(e);
            },
        }
        emit_op(high_ops, High::Done(reg), Ghost(bound));
        emit_op(high_ops, High::StackPop, Ghost(bound));
        proof {
            blocks = blocks.push(high_ops@.len() as int);
            assert(high_ops@[pre.len() as int] == High::StackPush(Frame { register: reg }));
            assert(high_ops@[high_ops@.len() - 2] == High::Done(reg));
            assert(high_ops@[high_ops@.len() - 1] == High::StackPop);
            lemma_brackets_preserved(pre, high_ops@, blocks, i as int);
            assert(spec_block_bracketed(high_ops@, blocks[i as int], blocks[i + 1], i as int));
        }
        i = i + 1;
    }
    let mut signature_registers = signature_in;
    let mut o: usize = 0;
    while o < signature_out.len()
        invariant
            o <= signature_out@.len(),
        decreases signature_out@.len() - o,
    {
        signature_registers.push(signature_out[o]);
        o = o + 1;
    }
    Ok(
        FunctionLinked {
            ops_start: start,
            ops_end: high_ops.len(),
            image_buffers: plan,
            signature_registers,
            blocks: Ghost(blocks),
        },
    )
}


/// Turn command buffers into a `Program`.
impl CommandBuffer {
    /// Compile this command buffer alone, with no type arguments and no
    /// linked functions.
    ///
    /// Success is owed on every standalone-linkable buffer: one without
    /// generic parameters or function declarations whose nodes all lower —
    /// concrete representable types, implemented operations, resolvable
    /// knobs. Everything else reports a compile failure.
    pub fn compile(&self) -> (r: Result<Program, CompileError>)
        ensures
            r matches Ok(program) ==> program.wf() && program.entry_index == 0
                && program.functions@.len() >= 1,
            spec_standalone_linkable(*self) ==> r is Ok,
    {
        let no_tys: Vec<Descriptor> = Vec::new();
        let no_functions: Vec<CommandBuffer> = Vec::new();
        let no_links: Vec<Vec<usize>> = Vec::new();
        self.link(&no_tys, no_functions.as_slice(), no_links.as_slice())
    }

    /// Link a collection of command buffers into a program.
    ///
    /// `functions` are all buffers besides `self`; `links` describes the
    /// relation between them: for each buffer — `self` at zero, then the
    /// array in order — a table matching each of its function declarations
    /// to the index of the buffer supplying the definition. Specialization
    /// proceeds on demand from `self` under the initial type arguments; one
    /// function is linked per distinct pair of buffer and concrete types.
    ///
    /// A program that comes back satisfies the program laws: the operand
    /// discipline of the stream, the knob bound, pairwise distinct
    /// specialization keys — one per linked function — and one bracketed
    /// block per source node in every linked function. Linking alone, with
    /// nothing to link against, is owed to succeed on every
    /// standalone-linkable buffer; failures report `NotYetImplemented`,
    /// which subsumes arity mismatches, out-of-range references,
    /// unrepresentable monomorphic layouts, the unimplemented lowerings and
    /// the specialization cap.
    pub fn link(
        &self,
        tys: &Vec<Descriptor>,
        functions: &[CommandBuffer],
        links: &[Vec<usize>],
    ) -> (r: Result<Program, CompileError>)
        ensures
            r matches Ok(program) ==> program.wf() && program.entry_index == 0
                && program.functions@.len() >= 1 && program.keys@[0] == (0int, tys@),
            (tys@.len() == 0 && functions@.len() == 0 && links@.len() == 0
                && spec_standalone_linkable(*self)) ==> r is Ok,
    {
        // More link tables than buffers cannot be meant.
        if functions.len() >= usize::MAX - 1 || functions.len() + 1 < links.len() {
            return Err(CompileError::NotYetImplemented);
        }
        let nbuffers = functions.len() + 1;
        let mut high_ops: Vec<High> = Vec::new();
        let mut knobs: Vec<RegisterKnob> = Vec::new();
        let mut keys: Vec<LinkedMonomorphicSignature> = Vec::new();
        keys.push(LinkedMonomorphicSignature { link_idx: 0, tys: copy_descriptors(tys) });
        let mut functions_linked: Vec<FunctionLinked> = Vec::new();
        let no_links: Vec<usize> = Vec::new();
        let mut next: usize = 0;
        while next < keys.len()
            invariant
                nbuffers == functions@.len() + 1,
                no_links@.len() == 0,
                next <= keys@.len(),
                keys@.len() <= MAX_FUNCTIONS,
                1 <= keys@.len(),
                keys@[0].key() == (0int, tys@),
                (tys@.len() == 0 && functions@.len() == 0 && links@.len() == 0
                    && spec_standalone_linkable(*self)) ==> keys@.len() == 1,
                spec_keys_distinct(keys@),
                functions_linked@.len() == next,
                forall|f: int|
                    0 <= f < functions_linked@.len() ==> (
                    #[trigger] functions_linked@[f]).ops_start <= functions_linked@[f].ops_end
                        <= high_ops@.len(),
                operand_discipline(high_ops@),
                no_trailing_operand(high_ops@),
                knobs_below(high_ops@, knobs@.len() as int),
            decreases MAX_FUNCTIONS - next,
        {
            let link_idx = keys[next].link_idx;
            let work_tys = copy_descriptors(&keys[next].tys);
            let command = if link_idx == 0 {
                self
            } else if link_idx - 1 < functions.len() {
                &functions[link_idx - 1]
            } else {
                return Err(CompileError::NotYetImplemented);
            };
            let function_links = if link_idx < links.len() {
                &links[link_idx]
            } else {
                &no_links
            };
            proof {
                if tys@.len() == 0 && functions@.len() == 0 && links@.len() == 0
                    && spec_standalone_linkable(*self) {
                    // The one work item is the primary at no type arguments,
                    // whose lowering is owed to succeed.
                    assert(next == 0 && link_idx == 0);
                    assert(work_tys@ == tys@);
                    assert(spec_link_in_ready(*self, work_tys@, function_links@));
                }
            }
            let ghost keys_before = keys@;
            let linked = match link_in(
                command,
                &work_tys,
                &mut high_ops,
                &mut keys,
                &mut knobs,
                link_idx,
                function_links.as_slice(),
                nbuffers,
            ) {
                Ok(linked) => linked,
                Err(e) => {
                    return Err(e);
                },
            };
            proof {
                if tys@.len() == 0 && functions@.len() == 0 && links@.len() == 0
                    && spec_standalone_linkable(*self) {
                    assert forall|j: int| 0 <= j < self.ops@.len() implies !(
                    #[trigger] self.ops@[j] is Invoke) by {
                        assert(spec_op_lowerable(*self, j));
                    }
                    assert(keys@ == keys_before);
                }
            }
            functions_linked.push(linked);
            next = next + 1;
        }
        let ghost key_views = Seq::new(keys@.len(), |k: int| keys@[k].key());
        proof {
            assert forall|a: int, b: int| 0 <= a < b < key_views.len() implies #[trigger] key_views[a]
                != #[trigger] key_views[b] by {
                assert(keys@[a].key() != keys@[b].key());
            }
        }
        Ok(
            Program {
                ops: high_ops,
                functions: functions_linked,
                entry_index: 0,
                knobs,
                keys: Ghost(key_views),
            },
        )
    }
}

} // verus!
