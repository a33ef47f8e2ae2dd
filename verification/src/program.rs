//! The lowered program: a flat stream of low-level operations against an
//! abstract rasterization device, together with the resource plan that maps
//! registers onto textures and byte buffers.
//!
//! The stream obeys an operand stack discipline: every draw is immediately
//! preceded by exactly as many pushed operands as its shader samples, which
//! is the contract the executor relies on. The two emit functions are the
//! only way the linker extends a stream, and each preserves the discipline.
use vstd::prelude::*;

use crate::command::{Register, RegisterKnob};
use crate::fp32::{div_bits, f32_div, f32_int, int_bits, F32_ONE};
use crate::layout::Descriptor;
use crate::matrix::RowMatrix;
use crate::rect::Rectangle;
use crate::shaders::FragmentShaderInvocation;

verus! {

/// A failure while linking command buffers into a program.
#[derive(Clone, Copy, Debug, PartialEq, Eq, Structural, Hash)]
pub enum CompileError {
    /// A link arity mismatch, an out-of-range reference, a missing generic
    /// argument, or a recognized shape with no implementation yet.
    NotYetImplemented,
}

/// A texture allocated by the resource planner.
#[derive(Clone, Copy, Debug, PartialEq, Eq, Structural, Hash)]
pub struct Texture(pub usize);

/// A byte buffer allocated by the resource planner.
#[derive(Clone, Copy, Debug, PartialEq, Eq, Structural, Hash)]
pub struct Buffer(pub usize);

/// A linked, monomorphic function of the program.
#[derive(Clone, Copy, Debug, PartialEq, Eq, Structural, Hash)]
pub struct Function(pub usize);

/// A runtime-replaceable parameter block of the program.
#[derive(Clone, Copy, Debug, PartialEq, Eq, Structural, Hash)]
pub struct Knob(pub usize);

/// A diagnostic scope: the register whose lowering the bracketed operations
/// realize.
#[derive(Clone, Copy, Debug, PartialEq, Eq, Structural, Hash)]
pub struct Frame {
    pub register: Register,
}

/// How a draw treats the previous contents of its target texture.
#[derive(Clone, Copy, Debug, PartialEq, Eq, Structural, Hash)]
pub enum Target {
    /// The previous contents are discarded before the draw.
    Discard(Texture),
    /// The previous contents are loaded, and painted over.
    Load(Texture),
}

/// The quadrilateral a draw maps its fragment output into.
#[derive(Clone, Copy, Debug, PartialEq, Eq)]
pub enum QuadTarget {
    /// An axis-aligned rectangle in pixel coordinates.
    Rect(Rectangle),
    /// Four corners in pixel coordinates as single-precision bit patterns,
    /// in the order top-left, top-right, bottom-left, bottom-right.
    Absolute([[u32; 2]; 4]),
}

/// How a launch sources the parameter block of a parameterized operation.
#[derive(Clone, Copy, Debug, PartialEq, Eq)]
pub enum KnobUser {
    /// The block recorded in the program is used as is.
    NoKnob,
    /// The host provides fresh bytes for the block on each launch.
    Runtime(Knob),
    /// The block is read from a slice of a planned byte buffer.
    Buffer { buffer: Buffer, start: u64, end: u64 },
}

/// A fragment shader together with the way its parameter block is sourced.
#[derive(Clone, Debug)]
pub struct ParameterizedFragment {
    pub invocation: FragmentShaderInvocation,
    pub knob: KnobUser,
}

/// What a draw paints.
#[derive(Clone, Debug)]
pub enum Initializer {
    /// Paint the whole target with the shader.
    PaintFullScreen { shader: ParameterizedFragment },
    /// Paint the selection of a source texture onto a target quad within a
    /// viewport.
    PaintToSelection {
        texture: Texture,
        selection: Rectangle,
        target: QuadTarget,
        viewport: Rectangle,
        shader: ParameterizedFragment,
    },
}

/// How bytes are written into a planned buffer.
#[derive(Clone, Debug)]
pub enum BufferWrite {
    /// Zero the whole buffer.
    Zero,
    /// Put the given bytes at the placement, optionally replaced through a
    /// knob on each launch.
    Put { start: usize, end: usize, data: Vec<u8>, knob: Option<Knob> },
}

/// One input or output binding of a function call, in signature order.
#[derive(Clone, Copy, Debug, PartialEq, Eq, Structural, Hash)]
pub enum CallBinding {
    /// The callee reads its input from this texture.
    InTexture { register: Register, texture: Texture },
    /// The callee writes its output into this texture.
    OutTexture { register: Register, texture: Texture },
}

/// One low-level operation of the lowered program.
#[derive(Clone, Debug)]
pub enum High {
    /// Open a diagnostic scope.
    StackPush(Frame),
    /// Close the innermost diagnostic scope.
    StackPop,
    /// The host binds a source image keyed by the register.
    Input(Register),
    /// The host retrieves the texture assigned to `src`.
    Output { src: Register, dst: Register },
    /// Like `Output`, but onto a caller-supplied render target.
    Render { src: Register, dst: Register },
    /// Push a sampler binding for the next draw.
    PushOperand(Texture),
    /// A full-screen or targeted draw with a parameterized fragment shader;
    /// consumes the pushed operands.
    DrawInto { dst: Target, fn_: Initializer },
    /// Blit one register's texture onto another's.
    Copy { src: Register, dst: Register },
    /// Allocate the target without defining its contents.
    Uninit { dst: Target },
    /// Zero or copy bytes into a planned buffer.
    WriteInto { dst: Buffer, fn_: BufferWrite },
    /// Execute a linked function's operation range with the given bindings.
    Call { function: Function, image_io_buffers: Vec<CallBinding> },
    /// Mark the register as defined.
    Done(Register),
}

impl QuadTarget {
    /// The full extent of a rectangle as a target quad.
    pub fn of_rect(rect: Rectangle) -> (r: QuadTarget)
        ensures
            r == QuadTarget::Rect(rect),
    {
        QuadTarget::Rect(rect)
    }

    /// Map every corner of the target through an affine transformation,
    /// with a perspective division by the homogeneous coordinate.
    pub fn affine(self, matrix: &RowMatrix) -> (r: QuadTarget)
        ensures
            r matches QuadTarget::Absolute(corners) && match self {
                QuadTarget::Rect(rect) => {
                    &&& corners[0] == spec_map_point(*matrix, rect.x, rect.y)
                    &&& corners[1] == spec_map_point(*matrix, rect.max_x, rect.y)
                    &&& corners[2] == spec_map_point(*matrix, rect.x, rect.max_y)
                    &&& corners[3] == spec_map_point(*matrix, rect.max_x, rect.max_y)
                },
                QuadTarget::Absolute(own) => corners == own,
            },
    {
        match self {
            QuadTarget::Rect(rect) => QuadTarget::Absolute(
                [
                    map_point(matrix, rect.x, rect.y),
                    map_point(matrix, rect.max_x, rect.y),
                    map_point(matrix, rect.x, rect.max_y),
                    map_point(matrix, rect.max_x, rect.max_y),
                ],
            ),
            QuadTarget::Absolute(own) => QuadTarget::Absolute(own),
        }
    }
}

/// Where an integer pixel corner lands under a homogeneous transformation:
/// the transformed column divided by its homogeneous coordinate.
pub open spec fn spec_map_point(matrix: RowMatrix, x: u32, y: u32) -> [u32; 2] {
    let h0 = matrix.row_dot(0, int_bits(x), int_bits(y), F32_ONE);
    let h1 = matrix.row_dot(1, int_bits(x), int_bits(y), F32_ONE);
    let h2 = matrix.row_dot(2, int_bits(x), int_bits(y), F32_ONE);
    [div_bits(h0, h2), div_bits(h1, h2)]
}

/// Map one integer pixel corner through a homogeneous transformation.
fn map_point(matrix: &RowMatrix, x: u32, y: u32) -> (r: [u32; 2])
    ensures
        r == spec_map_point(*matrix, x, y),
{
    let col = [f32_int(x), f32_int(y), F32_ONE];
    let h = matrix.multiply_column(col);
    let r = [f32_div(h[0], h[2]), f32_div(h[1], h[2])];
    proof {
        assert(r =~= spec_map_point(*matrix, x, y));
    }
    r
}

/// The fragment shader an initializer paints with.
pub open spec fn spec_initializer_shader(init: Initializer) -> FragmentShaderInvocation {
    match init {
        Initializer::PaintFullScreen { shader } => shader.invocation,
        Initializer::PaintToSelection { shader, .. } => shader.invocation,
    }
}

/// How the parameter block of an initializer is sourced.
pub open spec fn spec_initializer_knob(init: Initializer) -> KnobUser {
    match init {
        Initializer::PaintFullScreen { shader } => shader.knob,
        Initializer::PaintToSelection { shader, .. } => shader.knob,
    }
}

/// The draw at index `i` is immediately preceded by exactly as many pushed
/// operands as its shader samples, and nothing else separates them.
pub open spec fn consumes_exactly(ops: Seq<High>, i: int) -> bool {
    ops[i] matches High::DrawInto { fn_, .. } ==> {
        let n = spec_initializer_shader(fn_).spec_num_args() as int;
        &&& n <= i
        &&& forall|k: int| i - n <= k < i ==> ops[k] is PushOperand
        &&& (i - n > 0 ==> !(ops[i - n - 1] is PushOperand))
    }
}

/// Every draw of the stream consumes exactly the operands pushed for it.
pub open spec fn operand_discipline(ops: Seq<High>) -> bool {
    forall|i: int| 0 <= i < ops.len() ==> consumes_exactly(ops, i)
}

/// The stream does not end in a pushed operand awaiting its draw.
pub open spec fn no_trailing_operand(ops: Seq<High>) -> bool {
    ops.len() == 0 || !(ops.last() is PushOperand)
}

/// Every knob the operation mentions has an identifier below the bound.
pub open spec fn op_knobs_below(op: High, bound: int) -> bool {
    match op {
        High::DrawInto { fn_, .. } => match spec_initializer_knob(fn_) {
            KnobUser::Runtime(knob) => knob.0 < bound,
            _ => true,
        },
        High::WriteInto { fn_, .. } => match fn_ {
            BufferWrite::Put { knob: Some(knob), .. } => knob.0 < bound,
            _ => true,
        },
        _ => true,
    }
}

/// Every knob the stream mentions has an identifier below the bound.
pub open spec fn knobs_below(ops: Seq<High>, bound: int) -> bool {
    forall|i: int| 0 <= i < ops.len() ==> op_knobs_below(#[trigger] ops[i], bound)
}

/// A bound on the knobs of a stream extends to any larger bound.
pub proof fn lemma_knobs_below_mono(ops: Seq<High>, bound: int, more: int)
    requires
        knobs_below(ops, bound),
        bound <= more,
    ensures
        knobs_below(ops, more),
{
    assert forall|i: int| 0 <= i < ops.len() implies op_knobs_below(#[trigger] ops[i], more) by {
        assert(op_knobs_below(ops[i], bound));
    }
}

/// Append one operation that is neither a pushed operand nor a draw.
pub fn emit_op(ops: &mut Vec<High>, op: High, Ghost(knob_bound): Ghost<int>)
    requires
        operand_discipline(old(ops)@),
        no_trailing_operand(old(ops)@),
        knobs_below(old(ops)@, knob_bound),
        !(op is PushOperand),
        !(op is DrawInto),
        op_knobs_below(op, knob_bound),
    ensures
        final(ops)@ == old(ops)@.push(op),
        operand_discipline(final(ops)@),
        no_trailing_operand(final(ops)@),
        knobs_below(final(ops)@, knob_bound),
{
    let ghost prior = ops@;
    ops.push(op);
    proof {
        assert forall|i: int| 0 <= i < ops@.len() implies consumes_exactly(ops@, i) by {
            if i < prior.len() {
                assert(consumes_exactly(prior, i));
                assert forall|k: int| 0 <= k < prior.len() implies ops@[k] == prior[k] by {}
            }
        }
    }
}

/// Append the operands of one draw, then the draw itself.
pub fn emit_draw(
    ops: &mut Vec<High>,
    operands: &[Texture],
    dst: Target,
    init: Initializer,
    Ghost(knob_bound): Ghost<int>,
)
    requires
        operand_discipline(old(ops)@),
        no_trailing_operand(old(ops)@),
        knobs_below(old(ops)@, knob_bound),
        operands@.len() == spec_initializer_shader(init).spec_num_args(),
        op_knobs_below(High::DrawInto { dst, fn_: init }, knob_bound),
    ensures
        final(ops)@.len() == old(ops)@.len() + operands@.len() + 1,
        final(ops)@.take(old(ops)@.len() as int) == old(ops)@,
        forall|k: int| 0 <= k < old(ops)@.len() ==> #[trigger] final(ops)@[k] == old(ops)@[k],
        forall|k: int|
            0 <= k < operands@.len() ==> final(ops)@[old(ops)@.len() + k] == High::PushOperand(
                operands@[k],
            ),
        final(ops)@.last() == (High::DrawInto { dst, fn_: init }),
        operand_discipline(final(ops)@),
        no_trailing_operand(final(ops)@),
        knobs_below(final(ops)@, knob_bound),
{
    let ghost prior = ops@;
    let mut i: usize = 0;
    while i < operands.len()
        invariant
            i <= operands@.len(),
            ops@.len() == prior.len() + i,
            ops@.take(prior.len() as int) == prior,
            forall|k: int|
                0 <= k < i ==> ops@[prior.len() + k] == High::PushOperand(operands@[k]),
        decreases operands@.len() - i,
    {
        ops.push(High::PushOperand(operands[i]));
        proof {
            assert(ops@.take(prior.len() as int) =~= prior);
        }
        i = i + 1;
    }
    let ghost drawidx = ops@.len() as int;
    let ghost mid = ops@;
    ops.push(High::DrawInto { dst, fn_: init });
    proof {
        let now = ops@;
        let n = spec_initializer_shader(init).spec_num_args() as int;
        assert(now.take(prior.len() as int) =~= prior);
        assert forall|i2: int| prior.len() <= i2 < drawidx implies now[i2] == High::PushOperand(
            operands@[i2 - prior.len()],
        ) by {
            assert(mid[prior.len() + (i2 - prior.len())] == High::PushOperand(
                operands@[i2 - prior.len()],
            ));
            assert(now[i2] == mid[i2]);
        }
        assert forall|i2: int| 0 <= i2 < now.len() implies consumes_exactly(now, i2) by {
            if i2 < prior.len() {
                assert(consumes_exactly(prior, i2));
                assert forall|k: int| 0 <= k < prior.len() implies now[k] == prior[k] by {}
            } else if i2 == drawidx {
                assert forall|k: int| i2 - n <= k < i2 implies now[k] is PushOperand by {
                    assert(now[k] == High::PushOperand(operands@[k - prior.len()]));
                }
                if i2 - n > 0 {
                    assert(now[i2 - n - 1] == prior[prior.len() - 1]);
                }
            } else {
                assert(now[i2] == High::PushOperand(operands@[i2 - prior.len()]));
            }
        }
        assert forall|i2: int| 0 <= i2 < now.len() implies op_knobs_below(
            #[trigger] now[i2],
            knob_bound,
        ) by {
            if i2 < prior.len() {
                assert(op_knobs_below(prior[i2], knob_bound));
            } else if i2 == drawidx {
                assert(now[i2] == (High::DrawInto { dst, fn_: init }));
            } else {
                assert(now[i2] == High::PushOperand(operands@[i2 - prior.len()]));
            }
        }
    }
}


/// The resource plan of one linked function: which texture and which byte
/// buffer each register is assigned to, with the liveness bookkeeping that
/// lets retired resources be reused.
///
/// The plan guarantees a single writer per interval: the ghost interval
/// history shows that any two registers sharing a resource have disjoint
/// liveness intervals, so no draw ever aliases a concurrent reader.
pub struct ImageBufferPlan {
    /// The descriptor of each allocated texture.
    pub textures: Vec<Descriptor>,
    /// The byte length of each allocated buffer.
    pub buffers: Vec<u64>,
    /// The texture assigned to each register, where one is.
    pub texture_by_register: Vec<Option<Texture>>,
    /// The buffer assigned to each register, where one is.
    pub buffer_by_register: Vec<Option<Buffer>>,
    /// The last operation index using the latest interval of each texture.
    pub texture_end: Vec<usize>,
    /// The last operation index using the latest interval of each buffer.
    pub buffer_end: Vec<usize>,
    /// The liveness intervals served by each texture, in allocation order.
    pub texture_intervals: Ghost<Seq<Seq<(int, int)>>>,
    /// The liveness intervals served by each buffer, in allocation order.
    pub buffer_intervals: Ghost<Seq<Seq<(int, int)>>>,
}

/// The intervals assigned to one resource are ordered and pairwise
/// disjoint, and all end at or before the recorded end.
pub open spec fn spec_intervals_wf(intervals: Seq<(int, int)>, end: int) -> bool {
    &&& forall|a: int| 0 <= a < intervals.len() ==> (#[trigger] intervals[a]).0 <= intervals[a].1
        <= end
    &&& forall|a: int, b: int|
        0 <= a < b < intervals.len() ==> (#[trigger] intervals[a]).1 < (#[trigger] intervals[b]).0
}

impl ImageBufferPlan {
    /// The bookkeeping is consistent and every resource serves only
    /// pairwise disjoint liveness intervals.
    pub open spec fn wf(self) -> bool {
        &&& self.textures@.len() == self.texture_end@.len()
        &&& self.textures@.len() == self.texture_intervals@.len()
        &&& self.buffers@.len() == self.buffer_end@.len()
        &&& self.buffers@.len() == self.buffer_intervals@.len()
        &&& forall|t: int|
            0 <= t < self.textures@.len() ==> spec_intervals_wf(
                #[trigger] self.texture_intervals@[t],
                self.texture_end@[t] as int,
            )
        &&& forall|t: int|
            0 <= t < self.buffers@.len() ==> spec_intervals_wf(
                #[trigger] self.buffer_intervals@[t],
                self.buffer_end@[t] as int,
            )
        &&& forall|r: int|
            0 <= r < self.texture_by_register@.len() ==> (
            match #[trigger] self.texture_by_register@[r] {
                Some(t) => t.0 < self.textures@.len(),
                None => true,
            })
        &&& forall|r: int|
            0 <= r < self.buffer_by_register@.len() ==> (
            match #[trigger] self.buffer_by_register@[r] {
                Some(b) => b.0 < self.buffers@.len(),
                None => true,
            })
    }

    /// An empty plan for a function of `nregs` registers.
    pub fn new(nregs: usize) -> (r: ImageBufferPlan)
        ensures
            r.wf(),
            r.textures@.len() == 0,
            r.buffers@.len() == 0,
            r.texture_by_register@.len() == nregs,
            r.buffer_by_register@.len() == nregs,
            forall|i: int| 0 <= i < nregs ==> r.texture_by_register@[i] is None,
            forall|i: int| 0 <= i < nregs ==> r.buffer_by_register@[i] is None,
    {
        let mut texture_by_register: Vec<Option<Texture>> = Vec::new();
        let mut buffer_by_register: Vec<Option<Buffer>> = Vec::new();
        let mut i: usize = 0;
        while i < nregs
            invariant
                i <= nregs,
                texture_by_register@.len() == i,
                buffer_by_register@.len() == i,
                forall|k: int| 0 <= k < i ==> texture_by_register@[k] is None,
                forall|k: int| 0 <= k < i ==> buffer_by_register@[k] is None,
            decreases nregs - i,
        {
            texture_by_register.push(None);
            buffer_by_register.push(None);
            i = i + 1;
        }
        ImageBufferPlan {
            textures: Vec::new(),
            buffers: Vec::new(),
            texture_by_register,
            buffer_by_register,
            texture_end: Vec::new(),
            buffer_end: Vec::new(),
            texture_intervals: Ghost(Seq::empty()),
            buffer_intervals: Ghost(Seq::empty()),
        }
    }

    /// The texture assigned to a register, where one is.
    pub fn texture_of(&self, reg: Register) -> (r: Option<Texture>)
        ensures
            r == (if reg.0 < self.texture_by_register@.len() {
                self.texture_by_register@[reg.0 as int]
            } else {
                None
            }),
    {
        if reg.0 < self.texture_by_register.len() {
            self.texture_by_register[reg.0]
        } else {
            None
        }
    }

    /// The buffer assigned to a register, where one is.
    pub fn buffer_of(&self, reg: Register) -> (r: Option<Buffer>)
        ensures
            r == (if reg.0 < self.buffer_by_register@.len() {
                self.buffer_by_register@[reg.0 as int]
            } else {
                None
            }),
    {
        if reg.0 < self.buffer_by_register.len() {
            self.buffer_by_register[reg.0]
        } else {
            None
        }
    }

    /// The texture of a register, assigned now if it has none yet.
    ///
    /// A fresh assignment reuses a retired texture of the very same
    /// descriptor whose last interval ended before this one starts, so the
    /// single-writer-per-interval guarantee is preserved; otherwise a new
    /// texture is allocated.
    pub fn ensure_texture(&mut self, desc: &Descriptor, first: usize, last: usize, reg: Register)
        -> (r: Texture)
        requires
            old(self).wf(),
            first <= last,
            reg.0 < old(self).texture_by_register@.len(),
        ensures
            final(self).wf(),
            r.0 < final(self).textures@.len(),
            final(self).texture_by_register@.len() == old(self).texture_by_register@.len(),
            final(self).buffer_by_register@ == old(self).buffer_by_register@,
            final(self).buffers@ == old(self).buffers@,
            final(self).buffer_end@ == old(self).buffer_end@,
            final(self).buffer_intervals@ == old(self).buffer_intervals@,
            final(self).texture_by_register@[reg.0 as int] == Some(r),
            match old(self).texture_by_register@[reg.0 as int] {
                Some(prev) => r == prev && final(self).textures@ == old(self).textures@
                    && final(self).texture_by_register@ == old(self).texture_by_register@,
                None => {
                    &&& final(self).textures@[r.0 as int] == *desc
                    &&& final(self).textures@.len() >= old(self).textures@.len()
                    &&& forall|k: int|
                        0 <= k < old(self).texture_by_register@.len() && k != reg.0
                            ==> final(self).texture_by_register@[k]
                            == old(self).texture_by_register@[k]
                    &&& forall|t: int|
                        0 <= t < old(self).textures@.len()
                            ==> final(self).textures@[t] == old(self).textures@[t]
                },
            },
    {
        if let Some(prev) = self.texture_by_register[reg.0] {
            return prev;
        }
        let mut t: usize = 0;
        while t < self.textures.len()
            invariant
                old(self).wf(),
                *self == *old(self),
                old(self).texture_by_register@[reg.0 as int] is None,
                t <= self.textures@.len(),
                first <= last,
                reg.0 < self.texture_by_register@.len(),
            decreases self.textures@.len() - t,
        {
            if self.textures[t] == *desc && self.texture_end[t] < first {
                self.texture_end.set(t, last);
                self.texture_by_register.set(reg.0, Some(Texture(t)));
                proof {
                    let spot = t as int;
                    let updated = self.texture_intervals@.update(
                        spot,
                        self.texture_intervals@[spot].push((first as int, last as int)),
                    );
                    self.texture_intervals = Ghost(updated);
                    assert forall|t2: int| 0 <= t2 < self.textures@.len() implies spec_intervals_wf(
                        #[trigger] self.texture_intervals@[t2],
                        self.texture_end@[t2] as int,
                    ) by {
                        assert(spec_intervals_wf(
                            old(self).texture_intervals@[t2],
                            old(self).texture_end@[t2] as int,
                        ));
                        if t2 == spot {
                            let ivs = self.texture_intervals@[t2];
                            let olds = old(self).texture_intervals@[t2];
                            assert forall|a: int| 0 <= a < ivs.len() implies (
                            #[trigger] ivs[a]).0 <= ivs[a].1 <= self.texture_end@[t2] as int by {
                                if a < olds.len() {
                                    assert(ivs[a] == olds[a]);
                                }
                            }
                            assert forall|a: int, b: int| 0 <= a < b < ivs.len() implies (
                            #[trigger] ivs[a]).1 < (#[trigger] ivs[b]).0 by {
                                if b < olds.len() {
                                    assert(ivs[a] == olds[a] && ivs[b] == olds[b]);
                                } else {
                                    assert(ivs[a] == olds[a]);
                                    assert(ivs[b] == (first as int, last as int));
                                }
                            }
                        }
                    }
                }
                return Texture(t);
            }
            t = t + 1;
        }
        let fresh = Texture(self.textures.len());
        self.textures.push(*desc);
        self.texture_end.push(last);
        self.texture_by_register.set(reg.0, Some(Texture(fresh.0)));
        proof {
            let pushed = self.texture_intervals@.push(seq![(first as int, last as int)]);
            self.texture_intervals = Ghost(pushed);
            assert forall|t2: int| 0 <= t2 < self.textures@.len() implies spec_intervals_wf(
                #[trigger] self.texture_intervals@[t2],
                self.texture_end@[t2] as int,
            ) by {
                if t2 < old(self).textures@.len() {
                    assert(self.texture_intervals@[t2] == old(self).texture_intervals@[t2]);
                    assert(spec_intervals_wf(
                        old(self).texture_intervals@[t2],
                        old(self).texture_end@[t2] as int,
                    ));
                }
            }
        }
        fresh
    }

    /// The buffer of a register, assigned now if it has none yet; the same
    /// reuse policy as for textures, keyed by the byte length.
    pub fn ensure_buffer(&mut self, len: u64, first: usize, last: usize, reg: Register) -> (r:
        Buffer)
        requires
            old(self).wf(),
            first <= last,
            reg.0 < old(self).buffer_by_register@.len(),
        ensures
            final(self).wf(),
            r.0 < final(self).buffers@.len(),
            final(self).buffer_by_register@.len() == old(self).buffer_by_register@.len(),
            final(self).texture_by_register@ == old(self).texture_by_register@,
            final(self).textures@ == old(self).textures@,
            final(self).texture_end@ == old(self).texture_end@,
            final(self).texture_intervals@ == old(self).texture_intervals@,
            final(self).buffer_by_register@[reg.0 as int] == Some(r),
            match old(self).buffer_by_register@[reg.0 as int] {
                Some(prev) => r == prev && final(self).buffers@ == old(self).buffers@
                    && final(self).buffer_by_register@ == old(self).buffer_by_register@,
                None => {
                    &&& final(self).buffers@[r.0 as int] == len
                    &&& forall|k: int|
                        0 <= k < old(self).buffer_by_register@.len() && k != reg.0
                            ==> final(self).buffer_by_register@[k]
                            == old(self).buffer_by_register@[k]
                },
            },
    {
        if let Some(prev) = self.buffer_by_register[reg.0] {
            return prev;
        }
        let mut t: usize = 0;
        while t < self.buffers.len()
            invariant
                old(self).wf(),
                *self == *old(self),
                old(self).buffer_by_register@[reg.0 as int] is None,
                t <= self.buffers@.len(),
                first <= last,
                reg.0 < self.buffer_by_register@.len(),
            decreases self.buffers@.len() - t,
        {
            if self.buffers[t] == len && self.buffer_end[t] < first {
                self.buffer_end.set(t, last);
                self.buffer_by_register.set(reg.0, Some(Buffer(t)));
                proof {
                    let spot = t as int;
                    let updated = self.buffer_intervals@.update(
                        spot,
                        self.buffer_intervals@[spot].push((first as int, last as int)),
                    );
                    self.buffer_intervals = Ghost(updated);
                    assert forall|t2: int| 0 <= t2 < self.buffers@.len() implies spec_intervals_wf(
                        #[trigger] self.buffer_intervals@[t2],
                        self.buffer_end@[t2] as int,
                    ) by {
                        assert(spec_intervals_wf(
                            old(self).buffer_intervals@[t2],
                            old(self).buffer_end@[t2] as int,
                        ));
                        if t2 == spot {
                            let ivs = self.buffer_intervals@[t2];
                            let olds = old(self).buffer_intervals@[t2];
                            assert forall|a: int| 0 <= a < ivs.len() implies (
                            #[trigger] ivs[a]).0 <= ivs[a].1 <= self.buffer_end@[t2] as int by {
                                if a < olds.len() {
                                    assert(ivs[a] == olds[a]);
                                }
                            }
                            assert forall|a: int, b: int| 0 <= a < b < ivs.len() implies (
                            #[trigger] ivs[a]).1 < (#[trigger] ivs[b]).0 by {
                                if b < olds.len() {
                                    assert(ivs[a] == olds[a] && ivs[b] == olds[b]);
                                } else {
                                    assert(ivs[a] == olds[a]);
                                    assert(ivs[b] == (first as int, last as int));
                                }
                            }
                        }
                    }
                }
                return Buffer(t);
            }
            t = t + 1;
        }
        let fresh = Buffer(self.buffers.len());
        self.buffers.push(len);
        self.buffer_end.push(last);
        self.buffer_by_register.set(reg.0, Some(Buffer(fresh.0)));
        proof {
            let pushed = self.buffer_intervals@.push(seq![(first as int, last as int)]);
            self.buffer_intervals = Ghost(pushed);
            assert forall|t2: int| 0 <= t2 < self.buffers@.len() implies spec_intervals_wf(
                #[trigger] self.buffer_intervals@[t2],
                self.buffer_end@[t2] as int,
            ) by {
                if t2 < old(self).buffers@.len() {
                    assert(self.buffer_intervals@[t2] == old(self).buffer_intervals@[t2]);
                    assert(spec_intervals_wf(
                        old(self).buffer_intervals@[t2],
                        old(self).buffer_end@[t2] as int,
                    ));
                }
            }
        }
        fresh
    }
}

/// The half-open stream range `[lo, hi)` is the diagnostic bracket of the
/// source node defining register `reg`: it opens with the node's frame,
/// and closes by publishing the register and popping the frame.
pub open spec fn spec_block_bracketed(ops: Seq<High>, lo: int, hi: int, reg: int) -> bool {
    &&& 0 <= lo
    &&& lo + 3 <= hi <= ops.len()
    &&& ops[lo] == High::StackPush(Frame { register: Register(reg as usize) })
    &&& ops[hi - 2] == High::Done(Register(reg as usize))
    &&& ops[hi - 1] == High::StackPop
}

/// One linked, monomorphic function: its range in the flat operation
/// stream, its resource plan, and the registers callers must bind, inputs
/// first and outputs after them, in declaration order.
pub struct FunctionLinked {
    /// The first operation of the function in the program stream.
    pub ops_start: usize,
    /// One past the last operation of the function in the program stream.
    pub ops_end: usize,
    /// The texture and buffer assignment of the function's registers.
    pub image_buffers: ImageBufferPlan,
    /// The registers that call bindings fill, in signature order.
    pub signature_registers: Vec<Register>,
    /// The fenceposts tying the stream to the source nodes: entry `i` is
    /// where the bracket of the node defining register `i` begins, and the
    /// final entry is the end of the range.
    pub blocks: Ghost<Seq<int>>,
}

/// A complete linked program: a flat operation stream, the ranges and
/// resource plans of its functions, and the knob table.
///
/// The stream satisfies the operand stack discipline and every runtime
/// knob it mentions is an index into the knob table; the table's indices
/// are the dense, unique knob identifiers of the program.
pub struct Program {
    /// The low-level operations of all functions, one flat stream.
    pub ops: Vec<High>,
    /// The linked functions; their ranges partition the used stream.
    pub functions: Vec<FunctionLinked>,
    /// The function executed by a launch.
    pub entry_index: usize,
    /// For each knob identifier, the register it was declared at.
    pub knobs: Vec<RegisterKnob>,
    /// The distinct specialization keys, one per linked function: the index
    /// of the source command buffer and the concrete type arguments.
    pub keys: Ghost<Seq<(int, Seq<Descriptor>)>>,
}

impl Program {
    /// The laws of a linked program: the operand discipline of the stream,
    /// the knob bound, one function per distinct specialization key, and
    /// every function's range lying within the stream.
    pub open spec fn wf(self) -> bool {
        &&& operand_discipline(self.ops@)
        &&& knobs_below(self.ops@, self.knobs@.len() as int)
        &&& self.functions@.len() == self.keys@.len()
        &&& forall|a: int, b: int|
            0 <= a < b < self.keys@.len() ==> #[trigger] self.keys@[a] != #[trigger] self.keys@[b]
        &&& forall|f: int|
            0 <= f < self.functions@.len() ==> (#[trigger] self.functions@[f]).ops_start
                <= self.functions@[f].ops_end <= self.ops@.len()
    }

    /// Look up the knob chosen during linking for a register of one of the
    /// source command buffers, where that register declared one.
    pub fn knob_for_register(&self, key: RegisterKnob) -> (r: Option<Knob>)
        ensures
            match r {
                Some(knob) => knob.0 < self.knobs@.len() && self.knobs@[knob.0 as int] == key,
                None => forall|i: int| 0 <= i < self.knobs@.len() ==> self.knobs@[i] != key,
            },
    {
        let mut i: usize = 0;
        while i < self.knobs.len()
            invariant
                i <= self.knobs@.len(),
                forall|k: int| 0 <= k < i ==> self.knobs@[k] != key,
            decreases self.knobs@.len() - i,
        {
            if self.knobs[i] == key {
                return Some(Knob(i));
            }
            i = i + 1;
        }
        None
    }
}


/// Append the paint of a selection of one texture: the operand push and
/// the draw — or nothing at all when the selection is empty, so that empty
/// selections produce no draws.
pub fn emit_selection_paint(
    ops: &mut Vec<High>,
    operand: Texture,
    dst: Target,
    selection: Rectangle,
    target: QuadTarget,
    viewport: Rectangle,
    shader: ParameterizedFragment,
    Ghost(knob_bound): Ghost<int>,
)
    requires
        operand_discipline(old(ops)@),
        no_trailing_operand(old(ops)@),
        knobs_below(old(ops)@, knob_bound),
        shader.invocation.spec_num_args() == 1,
        op_knobs_below(
            High::DrawInto {
                dst,
                fn_: Initializer::PaintToSelection {
                    texture: operand,
                    selection,
                    target,
                    viewport,
                    shader,
                },
            },
            knob_bound,
        ),
    ensures
        operand_discipline(final(ops)@),
        no_trailing_operand(final(ops)@),
        knobs_below(final(ops)@, knob_bound),
        final(ops)@.len() >= old(ops)@.len(),
        forall|k: int| 0 <= k < old(ops)@.len() ==> #[trigger] final(ops)@[k] == old(ops)@[k],
        selection.is_empty() ==> final(ops)@ == old(ops)@,
        !selection.is_empty() ==> final(ops)@ == old(ops)@.push(High::PushOperand(operand)).push(
            High::DrawInto {
                dst,
                fn_: Initializer::PaintToSelection {
                    texture: operand,
                    selection,
                    target,
                    viewport,
                    shader,
                },
            },
        ),
{
    if selection.width() == 0 || selection.height() == 0 {
        return ;
    }
    let operands = [operand];
    let ghost before = ops@;
    emit_draw(
        ops,
        &operands,
        dst,
        Initializer::PaintToSelection { texture: operand, selection, target, viewport, shader },
        Ghost(knob_bound),
    );
    proof {
        assert(ops@ =~= before.push(High::PushOperand(operand)).push(
            High::DrawInto {
                dst,
                fn_: Initializer::PaintToSelection {
                    texture: operand,
                    selection,
                    target,
                    viewport,
                    shader,
                },
            },
        ));
    }
}

} // verus!
