//! The command IR: one linear sequence of strongly typed instructions.
//!
//! The machine model is a single basic block in static single assignment
//! form. Every operation appends one node to the list; the node's index is
//! the register holding its result, and registers are never reassigned.
//! Each builder validates its operation fully before appending, so a command
//! buffer only ever holds well-formed nodes, and a failed call leaves the
//! buffer unchanged.
use vstd::prelude::*;

use crate::color::{
    rgb_to_xyz, rgb_to_xyz_matrix, ChromaticAdaptationMethod, Color, Illuminant,
};
use crate::layout::{ByteLayout, Descriptor};
use crate::matrix::RowMatrix;
use crate::rect::Rectangle;
use crate::program::CompileError;
use crate::shaders::{self, FragmentShaderInvocation, PaintOnTopKind, ShaderInvocation};
use crate::texel::{ChannelPosition, ColorChannel, SampleParts, Texel};

verus! {

/// A reference to one particular value: the index of the operation that
/// defines it.
#[derive(Clone, Copy, Debug, PartialEq, Eq, Structural, Hash)]
pub struct Register(pub usize);

/// Refers to a generic argument declaration.
#[derive(Clone, Copy, Debug, PartialEq, Eq, Structural, Hash)]
pub struct GenericVar(pub usize);

/// Refers to the descriptor introduced by a generic argument or a derived
/// variable.
#[derive(Clone, Copy, Debug, PartialEq, Eq, Structural, Hash)]
pub struct DescriptorVar(pub usize);

/// Refers to a function declared by its signature.
#[derive(Clone, Copy, Debug, PartialEq, Eq, Structural, Hash)]
pub struct FunctionVar(pub usize);

/// The bounds of one generic parameter. No bounds exist yet; the table
/// reserves the place where subtyping constraints would live.
#[derive(Clone, Copy, Debug)]
pub struct TyVarBounds {}

/// A partially known value: concrete, or borrowed from a generic parameter.
#[derive(Clone, Copy, Debug, PartialEq, Eq, Hash)]
pub enum Generic<T> {
    Concrete(T),
    Generic(GenericVar),
}

/// A partially known image type: the size and the chroma — texel paired
/// with color — may each be concrete or refer to a generic parameter.
#[derive(Clone, Copy, Debug, PartialEq, Eq, Hash)]
pub struct GenericDescriptor {
    pub size: Generic<(u32, u32)>,
    pub chroma: Generic<(Texel, Color)>,
}

/// A byte buffer of concrete or generic length. A generic length is the
/// device transfer size of the descriptor bound to the same parameter.
#[derive(Clone, Copy, Debug, PartialEq, Eq, Hash)]
pub struct GenericBuffer {
    pub size: Generic<u64>,
}

/// The signature of a linkable function: generic parameters, inputs and
/// outputs.
#[derive(Clone, Debug)]
pub struct CommandSignature {
    pub vars: Vec<TyVarBounds>,
    pub input: Vec<GenericDescriptor>,
    pub output: Vec<GenericDescriptor>,
}

/// Describe the value class of a register, and its precise type.
pub enum RegisterDescription<'cmd> {
    /// This register is not a value operation.
    NoValue,
    /// This register is a texture.
    Texture(&'cmd GenericDescriptor),
    /// This register is a byte-based buffer.
    Buffer(&'cmd GenericBuffer),
}

/// A construction operation: produces an image without consuming one.
#[derive(Clone, Debug)]
pub enum ConstructOp {
    /// A bilinear function of the pixel position.
    Bilinear(shaders::bilinear::Shader),
    /// A two-dimensional normal distribution.
    DistributionNormal(shaders::distribution_normal2d::Shader),
    /// Fractal noise.
    DistributionNoise(shaders::fractal_noise::Shader),
    /// A color to repeat on all pixels, as single-precision bit patterns.
    Solid([u32; 4]),
    /// An existing byte buffer to copy the image from.
    FromBuffer(Register),
}

/// The parameters of a color conversion, fixed when the operation is built.
#[derive(Clone, Copy, Debug)]
pub enum ColorConversion {
    Xyz {
        /// The source's RGB-to-XYZ matrix.
        from_xyz_matrix: RowMatrix,
        /// The target's RGB-to-XYZ matrix.
        to_xyz_matrix: RowMatrix,
    },
    XyzToOklab {
        /// The matrix converting the source to XYZ.
        to_xyz_matrix: RowMatrix,
    },
    OklabToXyz {
        /// The target's RGB-to-XYZ matrix, inverted during lowering.
        from_xyz_matrix: RowMatrix,
    },
    XyzToSrLab2 {
        /// The matrix converting the source to XYZ.
        to_xyz_matrix: RowMatrix,
        /// The SrLab2 target whitepoint.
        whitepoint: Illuminant,
    },
    SrLab2ToXyz {
        /// The target's RGB-to-XYZ matrix, inverted during lowering.
        from_xyz_matrix: RowMatrix,
        /// The SrLab2 source whitepoint.
        whitepoint: Illuminant,
    },
}

/// A whitepoint adaptation fixed when the operation is built.
#[derive(Clone, Copy, Debug)]
pub struct ChromaticAdaptation {
    /// The matrix converting the source color to XYZ.
    pub to_xyz_matrix: RowMatrix,
    /// The source whitepoint.
    pub source: Illuminant,
    /// The method of adaptation.
    pub method: ChromaticAdaptationMethod,
    /// The matrix converting from XYZ to the adapted color.
    pub from_xyz_matrix: RowMatrix,
    /// The target whitepoint.
    pub target: Illuminant,
}

/// Remove spherical differences in effective irradiation.
#[derive(Clone, Copy, Debug)]
pub enum VignetteRemoval {
    /// The irradiance given by four components with the constant held at
    /// one; coefficients are single-precision bit patterns.
    Polynom3 { coefficients: [u32; 3] },
}

/// A gain map: a pixel-weighted rescaling factor in logarithmic scale.
/// Declared for forward compatibility; not yet lowered. All fractional
/// fields are single-precision bit patterns.
#[derive(Clone, Copy, Debug)]
pub struct GainMap {
    /// The sdr bias as defined in metadata or broadcast across channels.
    pub bias_sdr: [u32; 3],
    /// The hdr bias as defined in metadata or broadcast across channels.
    pub bias_hdr: [u32; 3],
    /// The HDR range intended by the metadata, lower and upper bound.
    pub intent_hdr_range: [u32; 2],
    /// The HDR capacity of the target output image, lower and upper bound.
    pub display_hdr_capacity: [u32; 2],
    /// The gain logarithmic affine parameters, lower bound.
    pub gain_min: u32,
    /// The gain logarithmic affine parameters, upper bound.
    pub gain_max: u32,
    /// The gain logarithmic affine parameters, exponent scaling.
    pub gain_gamma: u32,
}

/// A unary image operation.
#[derive(Clone, Copy, Debug)]
pub enum UnaryOp {
    /// Select a rectangular part of the image.
    Crop(Rectangle),
    /// Change the color interpretation, converting the samples.
    ColorConvert(ColorConversion),
    /// Keep a single channel of the image.
    Extract { channel: ChannelPosition },
    /// Change the whitepoint of an XYZ-ish color space.
    ChromaticAdaptation(ChromaticAdaptation),
    /// Remove a vignette model from the image.
    Vignette(VignetteRemoval),
    /// Reinterpret the bytes of the image as another texel type of the same
    /// byte width.
    Transmute,
    /// Calculate a first derivative.
    Derivative(Derivative),
}

/// A binary image operation.
#[derive(Clone, Copy, Debug)]
pub enum BinaryOp {
    /// Paint the second image onto an affine transformation of the first.
    Affine(Affine),
    /// Embed the second image into the first at a fixed placement.
    Inscribe { placement: Rectangle },
    /// Replace one channel of the first image with the second image.
    Inject { channel: ChannelPosition, from_channels: Texel },
    /// Sample colors from the first image at coordinates read from the
    /// second.
    Palette(shaders::palette::Shader),
    /// Apply a gain map. Declared, not yet lowered.
    GainMap(GainMap),
}

/// How a byte buffer is initialized.
#[derive(Clone, Debug)]
pub enum BufferInitOp {
    /// Zero the buffer, then put the given bytes at the placement.
    FromData { start: usize, end: usize, data: Vec<u8> },
}

/// A unary operation on a byte buffer.
#[derive(Clone, Copy, Debug)]
pub enum BufferUnaryOp {
    /// The encoded form of an image, row-padded as on the device.
    FromImage {},
}

/// A binary operation on byte buffers.
#[derive(Clone, Copy, Debug)]
pub enum BufferBinaryOp {
    /// Overlay one buffer over the contents of the other at a fixed
    /// location; overflowing bytes are discarded.
    Overlay { at: u64 },
}

/// Which operands a user-supplied shader invocation consumes.
#[derive(Clone, Copy, Debug)]
pub enum OperandDynKind {
    Construct,
    Unary(Register),
    Binary { lhs: Register, rhs: Register },
}

/// One node of the IR. The node at index `i` defines register `i`.
#[derive(Clone, Debug)]
pub enum Op {
    /// An image bound by the host at launch.
    Input { desc: GenericDescriptor },
    /// An image surfaced to the host at launch.
    Output { src: Register },
    /// An image painted onto a host-supplied render target.
    Render { src: Register },
    /// An image produced without consuming one.
    Construct { desc: GenericDescriptor, op: ConstructOp },
    /// An image computed from one image.
    Unary { src: Register, op: UnaryOp, desc: GenericDescriptor },
    /// An image computed from two images.
    Binary { lhs: Register, rhs: Register, op: BinaryOp, desc: GenericDescriptor },
    /// An image computed by a user-supplied shader.
    DynamicImage { call: OperandDynKind, command: ShaderInvocation, desc: GenericDescriptor },
    /// A call of a declared function.
    Invoke {
        function: FunctionVar,
        arguments: Vec<Register>,
        results: Vec<Register>,
        generics: Vec<GenericDescriptor>,
    },
    /// One return value of a function call; defined by the `Invoke` node at
    /// the later index `invocation`.
    InvokedResult { invocation: Register, desc: GenericDescriptor },
    /// A byte buffer initialized from host data.
    BufferInit { op: BufferInitOp, desc: GenericBuffer },
    /// A byte buffer computed from an image.
    BufferUnary { src: Register, op: BufferUnaryOp, desc: GenericBuffer },
    /// A byte buffer computed from two buffers.
    BufferBinary { lhs: Register, rhs: Register, op: BufferBinaryOp, desc: GenericBuffer },
}

/// How the parameter block of an operation is replaced at launch.
#[derive(Clone, Copy, Debug)]
pub enum KnobKind {
    /// The host supplies fresh bytes on each launch.
    Runtime,
    /// The parameter block is read from a slice of a byte buffer register.
    Buffer { buffer: Register, start: u64, end: u64 },
}

/// One linear sequence of instructions.
pub struct CommandBuffer {
    /// The instructions in definition order; the node at index `i` defines
    /// register `i`. Maintained by the builder methods: treat as read-only.
    pub ops: Vec<Op>,
    /// The bounds of each declared generic parameter.
    pub vars: Vec<TyVarBounds>,
    /// The signatures of the functions this buffer invokes.
    pub symbols: Vec<CommandSignature>,
    /// The descriptor table that descriptor variables index into.
    pub tys: Vec<GenericDescriptor>,
    /// Commands whose statically initialized parameter block can be adjusted
    /// at launch time, keyed by the register they produce.
    pub knobs: Vec<(Register, KnobKind)>,
}

/// Declare a fresh generic declaration parameter.
pub struct GenericDeclaration<'lt> {
    pub bounds: &'lt [GenericBound],
}

/// Declare a new descriptor type based on a generic bound.
pub struct DescriptorDerivation {
    pub base: DescriptorVar,
    pub size: Option<(u32, u32)>,
}

/// Bounds on generic parameters. No meaningful bound exists yet; the
/// enumeration reserves the place where subtyping constraints would live.
pub enum GenericBound {
    /// Reserved: carries no constraint.
    Reserved,
}

/// The arguments of one function invocation.
pub struct InvocationArguments<'lt> {
    pub generics: &'lt [DescriptorVar],
    pub arguments: &'lt [Register],
}

/// Describes an affine transformation of an image: a combination of
/// scaling, translation and rotation of its 2D space.
#[derive(Clone, Copy, Debug)]
pub struct Affine {
    /// The transformation, as a row-major homogeneous matrix of
    /// single-precision bit patterns. The top-left pixel starts at (0, 0),
    /// the bottom-right pixel ends at (1, 1).
    pub transformation: [u32; 9],
    /// How pixels are resolved from the underlying texture.
    pub sampling: AffineSample,
}

/// How pixels are sampled from a texture under an affine transformation.
#[derive(Clone, Copy, Debug, PartialEq, Eq, Structural, Hash)]
pub enum AffineSample {
    /// Choose the nearest pixel; works with all color models.
    Nearest,
    /// Interpolate bi-linearly between the nearest pixels. The device
    /// sampler interpolates in linear RGB, so only RGB-ish images qualify.
    BiLinear,
}

/// A method of painting one image over another.
#[derive(Clone, Copy, Debug, PartialEq, Eq, Structural, Hash)]
pub enum Blend {
    Alpha,
}

/// Calculate a first derivative of the image.
#[derive(Clone, Copy, Debug, PartialEq, Eq, Structural, Hash)]
pub struct Derivative {
    pub method: DerivativeMethod,
    pub direction: Direction,
}

/// The axis along which a derivative is taken.
#[derive(Clone, Copy, Debug, PartialEq, Eq, Structural, Hash)]
pub enum Direction {
    /// Along the height of the image.
    Height,
    /// Along the width of the image.
    Width,
}

/// The discrete derivative operator.
#[derive(Clone, Copy, Debug, PartialEq, Eq, Structural, Hash)]
pub enum DerivativeMethod {
    /// A 2-sized filter with diagonal basis direction.
    Roberts,
    /// The derivative with average smoothing.
    Prewitt,
    /// The derivative with weighted smoothing.
    Sobel,
    /// The Scharr 3×3 operator at floating point precision.
    Scharr3,
    /// A 4-tap derivative operator by Scharr.
    Scharr4,
    /// A 5-tap derivative operator by Scharr.
    Scharr5,
    /// The 4-bit approximated Scharr operator, for compatibility.
    Scharr3To4Bit,
    /// A non-smoothed 5-tap derivative.
    Scharr5Tab,
    /// The 8-bit approximated Scharr operator, for compatibility.
    Scharr3To8Bit,
}

/// Methods for removing noise from an image. Declared, not yet lowered.
#[derive(Clone, Copy, Debug, PartialEq, Eq, Structural, Hash)]
pub enum SmoothingMethod {
    /// The arithmetic mean of the surroundings.
    Laplace,
    /// A weighted average using a gauss kernel.
    Gaussian,
    /// The median of the surrounding pixels, chosen by the Luma channel.
    Median,
    /// A bilateral filter, weighting pixels by values of the Luma channel.
    Bilteral,
    /// The mean of the surrounding region with minimal variance.
    Kuwahara,
}

/// A palette lookup operation: which color channels of the index image
/// provide the texture coordinates into the palette image.
#[derive(Clone, Copy, Debug, PartialEq, Eq, Structural, Hash)]
pub struct Palette {
    /// The channel providing the coordinate along the width axis.
    pub width: Option<ColorChannel>,
    /// The channel providing the coordinate along the height axis.
    pub height: Option<ColorChannel>,
    /// The base coordinate for sampling along width.
    pub width_base: i32,
    /// The base coordinate for sampling along height.
    pub height_base: i32,
}

/// The reason a command was rejected.
#[derive(Clone, Copy, Debug)]
pub enum CommandErrorKind {
    /// The layout or color pair of a descriptor is not usable here.
    BadDescriptor(GenericDescriptor),
    /// An operation needed a concrete descriptor but found a generic one.
    ConcreteDescriptorRequired,
    /// Two registers have incompatible chroma or size.
    ConflictingTypes(GenericDescriptor, GenericDescriptor),
    /// A generic arity or bound does not match.
    GenericTypeError,
    /// A bad register reference, an invalid call arity, or a channel that
    /// cannot be represented.
    Other,
    /// A recognized operation that has no implementation yet.
    Unimplemented,
}

/// The structured diagnostic of a failed builder call.
#[derive(Clone, Copy, Debug)]
pub struct CommandError {
    pub inner: CommandErrorKind,
}

impl CommandError {
    /// Which kind of failure this is.
    pub fn kind(&self) -> (r: CommandErrorKind)
        ensures
            r == self.inner,
    {
        self.inner
    }

    /// Whether the error describes a type mismatch rather than a missing
    /// implementation or a bad reference.
    pub open spec fn spec_is_type_err(self) -> bool {
        match self.inner {
            CommandErrorKind::GenericTypeError => true,
            CommandErrorKind::ConflictingTypes(_, _) => true,
            CommandErrorKind::BadDescriptor(_) => true,
            _ => false,
        }
    }

    /// Whether the error describes a type mismatch.
    pub fn is_type_err(&self) -> (r: bool)
        ensures
            r == self.spec_is_type_err(),
    {
        match self.inner {
            CommandErrorKind::GenericTypeError => true,
            CommandErrorKind::ConflictingTypes(_, _) => true,
            CommandErrorKind::BadDescriptor(_) => true,
            _ => false,
        }
    }

    /// A very generic type error.
    pub(crate) fn type_err() -> (r: CommandError)
        ensures
            r.inner is GenericTypeError,
    {
        CommandError { inner: CommandErrorKind::GenericTypeError }
    }

    /// A bad register reference or an otherwise invalid call.
    pub(crate) fn other() -> (r: CommandError)
        ensures
            r.inner is Other,
    {
        CommandError { inner: CommandErrorKind::Other }
    }

    /// A recognized operation that has no implementation yet.
    pub(crate) fn unimplemented() -> (r: CommandError)
        ensures
            r.inner is Unimplemented,
    {
        CommandError { inner: CommandErrorKind::Unimplemented }
    }
}

impl TyVarBounds {
    /// Whether `self` contains all bounds occurring in `actual`. No bounds
    /// exist yet, so any set contains any other.
    pub fn contains_bounds(&self, actual: &TyVarBounds) -> (r: bool)
        ensures
            r,
    {
        self.is_empty() && actual.is_empty()
    }

    /// Whether no bounds are recorded.
    fn is_empty(&self) -> (r: bool)
        ensures
            r,
    {
        true
    }
}

impl GenericDescriptor {
    /// All generic references stay below the number of declared parameters.
    pub open spec fn spec_wf(self, nvars: int) -> bool {
        &&& (self.size matches Generic::Generic(v) ==> v.0 < nvars)
        &&& (self.chroma matches Generic::Generic(v) ==> v.0 < nvars)
    }

    /// The concrete descriptor this describes, with a packed layout.
    pub open spec fn spec_as_concrete(self) -> Option<Descriptor> {
        match (self.size, self.chroma) {
            (Generic::Concrete((w, h)), Generic::Concrete((texel, color))) => {
                if h * (w * texel.spec_bytes()) <= u64::MAX {
                    Some(
                        Descriptor {
                            layout: ByteLayout {
                                width: w,
                                height: h,
                                texel_stride: texel.spec_bytes(),
                                row_stride: (w * texel.spec_bytes()) as u64,
                            },
                            texel,
                            color,
                        },
                    )
                } else {
                    None
                }
            },
            _ => None,
        }
    }

    /// Query the monomorphic descriptor that this describes.
    ///
    /// Returns a value exactly when both size and chroma are concrete and
    /// the packed layout stays representable.
    pub fn as_concrete(&self) -> (r: Option<Descriptor>)
        ensures
            r == self.spec_as_concrete(),
    {
        let (w, h) = match self.size {
            Generic::Concrete(size) => size,
            Generic::Generic(_) => {
                return None;
            },
        };
        let (texel, color) = match self.chroma {
            Generic::Concrete(chroma) => chroma,
            Generic::Generic(_) => {
                return None;
            },
        };
        match Descriptor::with_texel(texel, w, h) {
            Some(desc) => Some(Descriptor { color, ..desc }),
            None => None,
        }
    }

    /// The same image type with the chroma replaced by a concrete pair.
    pub fn with_chroma(&self, texel: Texel, color: Color) -> (r: Self)
        ensures
            r.size == self.size,
            r.chroma == Generic::<(Texel, Color)>::Concrete((texel, color)),
    {
        GenericDescriptor { chroma: Generic::Concrete((texel, color)), size: self.size }
    }

    /// The size, where concrete.
    pub fn size(&self) -> (r: Generic<(u32, u32)>)
        ensures
            r == self.size,
    {
        self.size
    }

    /// The chroma — texel and color — where concrete.
    pub fn descriptor_chroma(&self) -> (r: Generic<(Texel, Color)>)
        ensures
            r == self.chroma,
    {
        self.chroma
    }

    /// The fully concrete image type of a generic descriptor: the same type
    /// of all descriptors bound to the same parameter.
    pub open spec fn spec_monomorphize(self, decl: Seq<Descriptor>) -> Option<Descriptor> {
        let size = match self.size {
            Generic::Concrete(size) => size,
            Generic::Generic(v) => (
                decl[v.0 as int].layout.width,
                decl[v.0 as int].layout.height,
            ),
        };
        let chroma = match self.chroma {
            Generic::Concrete(chroma) => chroma,
            Generic::Generic(v) => (decl[v.0 as int].texel, decl[v.0 as int].color),
        };
        GenericDescriptor {
            size: Generic::Concrete(size),
            chroma: Generic::Concrete(chroma),
        }.spec_as_concrete()
    }

    /// Apply a variable assignment, computing the concrete descriptor.
    ///
    /// Returns nothing when the combined layout would not be representable,
    /// which a caller reports as a failed compilation.
    pub fn try_monomorphize(&self, decl: &Vec<Descriptor>) -> (r: Option<Descriptor>)
        requires
            self.spec_wf(decl@.len() as int),
        ensures
            r == self.spec_monomorphize(decl@),
    {
        let (w, h) = match self.size {
            Generic::Concrete(size) => size,
            Generic::Generic(v) => {
                let base = &decl[v.0];
                (base.layout.width, base.layout.height)
            },
        };
        let (texel, color) = match self.chroma {
            Generic::Concrete(chroma) => chroma,
            Generic::Generic(v) => {
                let base = &decl[v.0];
                (base.texel, base.color)
            },
        };
        let combined = GenericDescriptor {
            size: Generic::Concrete((w, h)),
            chroma: Generic::Concrete((texel, color)),
        };
        combined.as_concrete()
    }

    /// Apply a variable assignment, checking the variable references as
    /// well: nothing is returned when a reference is out of range or the
    /// combined layout is not representable.
    pub fn monomorphize_checked(&self, decl: &Vec<Descriptor>) -> (r: Option<Descriptor>)
        ensures
            match r {
                Some(d) => self.spec_wf(decl@.len() as int) && Some(d) == self.spec_monomorphize(
                    decl@,
                ),
                None => self.spec_wf(decl@.len() as int) ==> self.spec_monomorphize(
                    decl@,
                ) is None,
            },
    {
        let size_ok = match self.size {
            Generic::Concrete(_) => true,
            Generic::Generic(v) => v.0 < decl.len(),
        };
        let chroma_ok = match self.chroma {
            Generic::Concrete(_) => true,
            Generic::Generic(v) => v.0 < decl.len(),
        };
        if !(size_ok && chroma_ok) {
            return None;
        }
        self.try_monomorphize(decl)
    }

    /// Apply a variable assignment, computing the concrete descriptor.
    ///
    /// The caller must have checked that the layout stays representable; see
    /// [`Self::try_monomorphize`] for the total variant.
    pub fn monomorphize(&self, decl: &Vec<Descriptor>) -> (r: Descriptor)
        requires
            self.spec_wf(decl@.len() as int),
            self.spec_monomorphize(decl@) is Some,
        ensures
            Some(r) == self.spec_monomorphize(decl@),
    {
        self.try_monomorphize(decl).unwrap()
    }

    /// What `rewrite` returns: generics replaced by the declaration bound to
    /// the same parameter, concrete parts kept.
    pub open spec fn spec_rewrite(self, decl: Seq<GenericDescriptor>) -> GenericDescriptor {
        GenericDescriptor {
            size: match self.size {
                Generic::Concrete(size) => Generic::Concrete(size),
                Generic::Generic(v) => decl[v.0 as int].size,
            },
            chroma: match self.chroma {
                Generic::Concrete(chroma) => Generic::Concrete(chroma),
                Generic::Generic(v) => decl[v.0 as int].chroma,
            },
        }
    }

    /// Apply an outer variable definition, replacing generics by at least as
    /// concrete terms.
    pub fn rewrite(&self, decl: &Vec<GenericDescriptor>) -> (r: Self)
        requires
            self.spec_wf(decl@.len() as int),
        ensures
            r == self.spec_rewrite(decl@),
    {
        GenericDescriptor {
            size: match self.size {
                Generic::Concrete(size) => Generic::Concrete(size),
                Generic::Generic(v) => decl[v.0].size,
            },
            chroma: match self.chroma {
                Generic::Concrete(chroma) => Generic::Concrete(chroma),
                Generic::Generic(v) => decl[v.0].chroma,
            },
        }
    }

    /// The generic descriptor of a concrete one.
    pub open spec fn spec_of_descriptor(desc: Descriptor) -> GenericDescriptor {
        GenericDescriptor {
            size: Generic::Concrete((desc.layout.width, desc.layout.height)),
            chroma: Generic::Concrete((desc.texel, desc.color)),
        }
    }

    /// Describe a concrete descriptor.
    pub fn of_descriptor(desc: &Descriptor) -> (r: GenericDescriptor)
        ensures
            r == GenericDescriptor::spec_of_descriptor(*desc),
    {
        GenericDescriptor {
            size: Generic::Concrete((desc.layout.width, desc.layout.height)),
            chroma: Generic::Concrete((desc.texel, desc.color)),
        }
    }

    /// Whether both descriptors are equal in every assignment of generics:
    /// equal references, or equal concrete values.
    pub fn same_type(&self, other: &GenericDescriptor) -> (r: bool)
        ensures
            r == (self == other),
    {
        let size_eq = match (self.size, other.size) {
            (Generic::Concrete((w0, h0)), Generic::Concrete((w1, h1))) => w0 == w1 && h0 == h1,
            (Generic::Generic(v0), Generic::Generic(v1)) => v0.0 == v1.0,
            _ => false,
        };
        let chroma_eq = match (self.chroma, other.chroma) {
            (Generic::Concrete((t0, c0)), Generic::Concrete((t1, c1))) => t0 == t1 && c0 == c1,
            (Generic::Generic(v0), Generic::Generic(v1)) => v0.0 == v1.0,
            _ => false,
        };
        size_eq && chroma_eq
    }
}

impl GenericBuffer {
    /// All generic references stay below the number of declared parameters.
    pub open spec fn spec_wf(self, nvars: int) -> bool {
        self.size matches Generic::Generic(v) ==> v.0 < nvars
    }

    /// The size of this buffer, where statically known.
    pub fn as_concrete(&self) -> (r: Option<u64>)
        ensures
            r == (match self.size {
                Generic::Concrete(val) => Some(val),
                Generic::Generic(_) => None::<u64>,
            }),
    {
        match self.size {
            Generic::Concrete(val) => Some(val),
            Generic::Generic(_) => None,
        }
    }

    /// The concrete byte length under a variable assignment: a generic
    /// length is the device transfer size of the bound descriptor.
    pub open spec fn spec_monomorphize(self, decl: Seq<Descriptor>) -> Option<u64> {
        match self.size {
            Generic::Concrete(val) => Some(val),
            Generic::Generic(v) => {
                let gpu = decl[v.0 as int].spec_gpu_len();
                if gpu <= u64::MAX {
                    Some(gpu as u64)
                } else {
                    None
                }
            },
        }
    }

    /// The concrete byte length under a variable assignment, checking the
    /// variable reference as well.
    pub fn monomorphize_checked(&self, decl: &Vec<Descriptor>) -> (r: Option<u64>)
        ensures
            match r {
                Some(len) => self.spec_wf(decl@.len() as int) && Some(len)
                    == self.spec_monomorphize(decl@),
                None => self.spec_wf(decl@.len() as int) ==> self.spec_monomorphize(
                    decl@,
                ) is None,
            },
    {
        match self.size {
            Generic::Concrete(val) => Some(val),
            Generic::Generic(v) => {
                if v.0 < decl.len() {
                    decl[v.0].u64_gpu_len()
                } else {
                    None
                }
            },
        }
    }

    /// The concrete byte length under a variable assignment.
    pub fn monomorphize(&self, decl: &Vec<Descriptor>) -> (r: Option<u64>)
        requires
            self.spec_wf(decl@.len() as int),
        ensures
            r == self.spec_monomorphize(decl@),
    {
        match self.size {
            Generic::Concrete(val) => Some(val),
            Generic::Generic(v) => decl[v.0].u64_gpu_len(),
        }
    }
}

impl<'lt> RegisterDescription<'lt> {
    /// The image type of the register, or a type error.
    pub fn as_texture(&self) -> (r: Result<&'lt GenericDescriptor, CommandError>)
        ensures
            match r {
                Ok(desc) => self matches RegisterDescription::Texture(own) && own == desc,
                Err(e) => !(self is Texture) && e.inner is Other,
            },
    {
        match self {
            RegisterDescription::Texture(tex) => Ok(tex),
            _ => Err(CommandError::other()),
        }
    }

    /// The buffer type of the register, or a type error.
    pub fn as_buffer(&self) -> (r: Result<&'lt GenericBuffer, CommandError>)
        ensures
            match r {
                Ok(buf) => self matches RegisterDescription::Buffer(own) && own == buf,
                Err(e) => !(self is Buffer) && e.inner is Other,
            },
    {
        match self {
            RegisterDescription::Buffer(buf) => Ok(buf),
            _ => Err(CommandError::other()),
        }
    }
}

impl CommandSignature {
    /// Whether a signature matches another command signature: whether the
    /// subtyping relationship of all bounds allows using one in place of the
    /// other declared type. This checks that `self` contains all bounds that
    /// occur in `actual`.
    pub fn is_declaration_of(&self, actual: &CommandSignature) -> (r: bool)
        ensures
            r == (self.vars@.len() == actual.vars@.len()),
    {
        if self.vars.len() != actual.vars.len() {
            return false;
        }
        let mut idx: usize = 0;
        while idx < self.vars.len()
            invariant
                idx <= self.vars@.len(),
                self.vars@.len() == actual.vars@.len(),
            decreases self.vars@.len() - idx,
        {
            if !self.vars[idx].contains_bounds(&actual.vars[idx]) {
                return false;
            }
            idx = idx + 1;
        }
        true
    }
}


/// The image type of the register defined at `r`, where it defines one.
pub open spec fn texture_desc_at(ops: Seq<Op>, r: int) -> Option<GenericDescriptor> {
    if 0 <= r < ops.len() {
        match ops[r] {
            Op::Input { desc } => Some(desc),
            Op::Construct { desc, .. } => Some(desc),
            Op::Unary { desc, .. } => Some(desc),
            Op::Binary { desc, .. } => Some(desc),
            Op::DynamicImage { desc, .. } => Some(desc),
            Op::InvokedResult { desc, .. } => Some(desc),
            _ => None,
        }
    } else {
        None
    }
}

/// The buffer type of the register defined at `r`, where it defines one.
pub open spec fn buffer_desc_at(ops: Seq<Op>, r: int) -> Option<GenericBuffer> {
    if 0 <= r < ops.len() {
        match ops[r] {
            Op::BufferInit { desc, .. } => Some(desc),
            Op::BufferUnary { desc, .. } => Some(desc),
            Op::BufferBinary { desc, .. } => Some(desc),
            _ => None,
        }
    } else {
        None
    }
}

/// The node at index `i` references only earlier registers of the right
/// value class, and all its generic references are declared.
pub open spec fn op_wf(ops: Seq<Op>, i: int, nvars: int, nsymbols: int) -> bool {
    match ops[i] {
        Op::Input { desc } => desc.spec_wf(nvars),
        Op::Output { src } => src.0 < i && texture_desc_at(ops, src.0 as int) is Some,
        Op::Render { src } => src.0 < i && texture_desc_at(ops, src.0 as int) is Some,
        Op::Construct { desc, op } => desc.spec_wf(nvars) && match op {
            ConstructOp::FromBuffer(buf) => buf.0 < i && buffer_desc_at(ops, buf.0 as int) is Some,
            _ => true,
        },
        Op::Unary { src, op, desc } => src.0 < i && texture_desc_at(ops, src.0 as int) is Some
            && desc.spec_wf(nvars),
        Op::Binary { lhs, rhs, op, desc } => lhs.0 < i && texture_desc_at(
            ops,
            lhs.0 as int,
        ) is Some && rhs.0 < i && texture_desc_at(ops, rhs.0 as int) is Some && desc.spec_wf(
            nvars,
        ),
        Op::DynamicImage { call, command, desc } => desc.spec_wf(nvars) && match call {
            OperandDynKind::Construct => command.num_args == 0,
            OperandDynKind::Unary(src) => command.num_args == 1 && src.0 < i && texture_desc_at(
                ops,
                src.0 as int,
            ) is Some,
            OperandDynKind::Binary { lhs, rhs } => command.num_args == 2 && lhs.0 < i
                && texture_desc_at(ops, lhs.0 as int) is Some && rhs.0 < i && texture_desc_at(
                ops,
                rhs.0 as int,
            ) is Some,
        },
        Op::Invoke { function, arguments, results, generics } => function.0 < nsymbols && (forall|
            k: int,
        |
            0 <= k < arguments@.len() ==> (#[trigger] arguments@[k]).0 < i && texture_desc_at(
                ops,
                arguments@[k].0 as int,
            ) is Some) && (forall|k: int|
            0 <= k < results@.len() ==> (#[trigger] results@[k]).0 < i && texture_desc_at(
                ops,
                results@[k].0 as int,
            ) is Some) && (forall|k: int|
            0 <= k < generics@.len() ==> (#[trigger] generics@[k]).spec_wf(nvars)),
        Op::InvokedResult { invocation, desc } => i < invocation.0 < ops.len() && desc.spec_wf(
            nvars,
        ),
        Op::BufferInit { op, desc } => desc.spec_wf(nvars) && match op {
            BufferInitOp::FromData { start, end, data } => start <= end && end - start
                == data@.len(),
        },
        Op::BufferUnary { src, op, desc } => src.0 < i && texture_desc_at(
            ops,
            src.0 as int,
        ) is Some && desc.spec_wf(nvars),
        Op::BufferBinary { lhs, rhs, op, desc } => lhs.0 < i && buffer_desc_at(
            ops,
            lhs.0 as int,
        ) is Some && rhs.0 < i && buffer_desc_at(ops, rhs.0 as int) is Some && desc.spec_wf(nvars),
    }
}

impl CommandSignature {
    /// All descriptors of the signature reference only declared parameters.
    pub open spec fn spec_wf(self) -> bool {
        &&& forall|k: int|
            0 <= k < self.input@.len() ==> (#[trigger] self.input@[k]).spec_wf(
                self.vars@.len() as int,
            )
        &&& forall|k: int|
            0 <= k < self.output@.len() ==> (#[trigger] self.output@[k]).spec_wf(
                self.vars@.len() as int,
            )
    }
}

impl CommandBuffer {
    /// Every node references only earlier registers of the right class, all
    /// generic references are declared, knob entries are attached to
    /// existing registers in strictly increasing order, and all recorded
    /// signatures and descriptor variables are well formed.
    pub open spec fn wf(self) -> bool {
        &&& forall|i: int|
            0 <= i < self.ops@.len() ==> op_wf(
                self.ops@,
                i,
                self.vars@.len() as int,
                self.symbols@.len() as int,
            )
        &&& forall|k: int|
            0 <= k < self.tys@.len() ==> (#[trigger] self.tys@[k]).spec_wf(
                self.vars@.len() as int,
            )
        &&& forall|k: int| 0 <= k < self.symbols@.len() ==> (#[trigger] self.symbols@[k]).spec_wf()
        &&& forall|k: int|
            0 <= k < self.knobs@.len() ==> (#[trigger] self.knobs@[k]).0.0 < self.ops@.len()
                && match self.knobs@[k].1 {
                KnobKind::Runtime => true,
                KnobKind::Buffer { buffer, start, end } => buffer.0 < self.knobs@[k].0.0
                    && buffer_desc_at(self.ops@, buffer.0 as int) is Some && start <= end,
            }
        &&& forall|k: int, l: int|
            0 <= k < l < self.knobs@.len() ==> (#[trigger] self.knobs@[k]).0.0 < (
            #[trigger] self.knobs@[l]).0.0
    }

    /// Everything but the instruction list agrees between the two states.
    pub open spec fn spec_same_tables(self, other: CommandBuffer) -> bool {
        &&& self.vars@ == other.vars@
        &&& self.symbols@ == other.symbols@
        &&& self.tys@ == other.tys@
        &&& self.knobs@ == other.knobs@
    }

    /// The two states agree completely.
    pub open spec fn spec_unchanged(self, other: CommandBuffer) -> bool {
        self.ops@ == other.ops@ && self.spec_same_tables(other)
    }
}

/// Appending a node does not disturb the types of existing registers.
pub proof fn lemma_desc_at_push(ops: Seq<Op>, newop: Op)
    ensures
        forall|r: int|
            0 <= r < ops.len() ==> #[trigger] texture_desc_at(ops.push(newop), r)
                == texture_desc_at(ops, r),
        forall|r: int|
            0 <= r < ops.len() ==> #[trigger] buffer_desc_at(ops.push(newop), r) == buffer_desc_at(
                ops,
                r,
            ),
{
    assert forall|r: int| 0 <= r < ops.len() implies #[trigger] texture_desc_at(ops.push(newop), r)
        == texture_desc_at(ops, r) by {
        assert(ops.push(newop)[r] == ops[r]);
    }
    assert forall|r: int| 0 <= r < ops.len() implies #[trigger] buffer_desc_at(ops.push(newop), r)
        == buffer_desc_at(ops, r) by {
        assert(ops.push(newop)[r] == ops[r]);
    }
}

/// A well-formed instruction list stays well formed when a node satisfying
/// the rules at the new index is appended.
pub proof fn lemma_ops_wf_push(ops: Seq<Op>, newop: Op, nvars: int, nsymbols: int)
    requires
        forall|i: int| 0 <= i < ops.len() ==> op_wf(ops, i, nvars, nsymbols),
        op_wf(ops.push(newop), ops.len() as int, nvars, nsymbols),
    ensures
        forall|i: int| 0 <= i < ops.push(newop).len() ==> op_wf(ops.push(newop), i, nvars, nsymbols),
{
    lemma_desc_at_push(ops, newop);
    assert forall|i: int| 0 <= i < ops.len() implies op_wf(ops.push(newop), i, nvars, nsymbols) by {
        assert(ops.push(newop)[i] == ops[i]);
        assert(op_wf(ops, i, nvars, nsymbols));
    }
}

impl Default for CommandBuffer {
    /// An empty command buffer: no instructions, no declarations.
    fn default() -> (r: CommandBuffer)
        ensures
            r.ops@.len() == 0,
            r.vars@.len() == 0,
            r.symbols@.len() == 0,
            r.tys@.len() == 0,
            r.knobs@.len() == 0,
            r.wf(),
    {
        CommandBuffer::create()
    }
}

impl CommandBuffer {
    /// An empty command buffer: no instructions, no declarations.
    pub fn create() -> (r: CommandBuffer)
        ensures
            r.ops@.len() == 0,
            r.vars@.len() == 0,
            r.symbols@.len() == 0,
            r.tys@.len() == 0,
            r.knobs@.len() == 0,
            r.wf(),
    {
        CommandBuffer {
            ops: Vec::new(),
            vars: Vec::new(),
            symbols: Vec::new(),
            tys: Vec::new(),
            knobs: Vec::new(),
        }
    }

    /// Get the descriptor for a register.
    pub fn describe_reg(&self, reg: Register) -> (r: RegisterDescription<'_>)
        ensures
            match r {
                RegisterDescription::Texture(desc) => texture_desc_at(self.ops@, reg.0 as int)
                    == Some(*desc),
                RegisterDescription::Buffer(buf) => buffer_desc_at(self.ops@, reg.0 as int) == Some(
                    *buf,
                ),
                RegisterDescription::NoValue => texture_desc_at(self.ops@, reg.0 as int) is None
                    && buffer_desc_at(self.ops@, reg.0 as int) is None,
            },
    {
        if reg.0 >= self.ops.len() {
            return RegisterDescription::NoValue;
        }
        match &self.ops[reg.0] {
            Op::Input { desc } => RegisterDescription::Texture(desc),
            Op::Construct { desc, .. } => RegisterDescription::Texture(desc),
            Op::Unary { desc, .. } => RegisterDescription::Texture(desc),
            Op::Binary { desc, .. } => RegisterDescription::Texture(desc),
            Op::DynamicImage { desc, .. } => RegisterDescription::Texture(desc),
            Op::InvokedResult { desc, .. } => RegisterDescription::Texture(desc),
            Op::BufferInit { desc, .. } => RegisterDescription::Buffer(desc),
            Op::BufferUnary { desc, .. } => RegisterDescription::Buffer(desc),
            Op::BufferBinary { desc, .. } => RegisterDescription::Buffer(desc),
            Op::Output { .. } => RegisterDescription::NoValue,
            Op::Render { .. } => RegisterDescription::NoValue,
            Op::Invoke { .. } => RegisterDescription::NoValue,
        }
    }

    /// Append one node, returning the register it defines.
    fn push(&mut self, op: Op) -> (r: Register)
        ensures
            final(self).ops@ == old(self).ops@.push(op),
            final(self).spec_same_tables(*old(self)),
            r.0 == old(self).ops@.len(),
    {
        let reg = Register(self.ops.len());
        self.ops.push(op);
        reg
    }
}


/// Intrinsically defined methods of manipulating images.
///
/// The order of arguments is generally: input registers first, each followed
/// by its configuration, then arguments of the command itself.
impl CommandBuffer {
    /// Declare an input.
    ///
    /// Inputs are bound by the host when the linked program is launched.
    /// The descriptor is accepted exactly when it is internally consistent.
    pub fn input(&mut self, desc: Descriptor) -> (r: Result<Register, CommandError>)
        requires
            old(self).wf(),
        ensures
            final(self).wf(),
            final(self).spec_same_tables(*old(self)),
            match r {
                Ok(reg) => {
                    &&& desc.spec_consistent()
                    &&& reg.0 == old(self).ops@.len()
                    &&& final(self).ops@ == old(self).ops@.push(
                        Op::Input { desc: GenericDescriptor::spec_of_descriptor(desc) },
                    )
                },
                Err(e) => {
                    &&& !desc.spec_consistent()
                    &&& e.inner is BadDescriptor
                    &&& final(self).spec_unchanged(*old(self))
                },
            },
    {
        if !desc.is_consistent() {
            return Err(
                CommandError {
                    inner: CommandErrorKind::BadDescriptor(GenericDescriptor::of_descriptor(&desc)),
                },
            );
        }
        let op = Op::Input { desc: GenericDescriptor::of_descriptor(&desc) };
        let ghost op_spec = op;
        let ghost prior = *self;
        let reg = self.push(op);
        proof {
            self.lemma_builder_push(prior, op_spec);
        }
        Ok(reg)
    }

    /// The shared tail of every builder: appending one node that satisfies
    /// the well-formedness rules keeps the whole buffer well formed.
    proof fn lemma_builder_push(&self, prior: CommandBuffer, op: Op)
        requires
            prior.wf(),
            self.ops@ == prior.ops@.push(op),
            self.spec_same_tables(prior),
            op_wf(
                self.ops@,
                prior.ops@.len() as int,
                prior.vars@.len() as int,
                prior.symbols@.len() as int,
            ),
        ensures
            self.wf(),
    {
        lemma_desc_at_push(prior.ops@, op);
        lemma_ops_wf_push(
            prior.ops@,
            op,
            prior.vars@.len() as int,
            prior.symbols@.len() as int,
        );
    }

    /// Declare an input that depends on a generic descriptor parameter.
    ///
    /// See [`Self::generic`]. Accepted exactly when the variable exists.
    pub fn input_generic(&mut self, var: DescriptorVar) -> (r: Result<Register, CommandError>)
        requires
            old(self).wf(),
        ensures
            final(self).wf(),
            final(self).spec_same_tables(*old(self)),
            match r {
                Ok(reg) => {
                    &&& var.0 < old(self).tys@.len()
                    &&& reg.0 == old(self).ops@.len()
                    &&& final(self).ops@ == old(self).ops@.push(
                        Op::Input { desc: old(self).tys@[var.0 as int] },
                    )
                },
                Err(e) => {
                    &&& var.0 >= old(self).tys@.len()
                    &&& e.inner is Other
                    &&& final(self).spec_unchanged(*old(self))
                },
            },
    {
        if var.0 >= self.tys.len() {
            return Err(CommandError::other());
        }
        let desc = self.tys[var.0];
        let op = Op::Input { desc };
        let ghost op_spec = op;
        let ghost prior = *self;
        let reg = self.push(op);
        proof {
            self.lemma_builder_push(prior, op_spec);
        }
        Ok(reg)
    }

    /// Declare a generic parameter.
    ///
    /// All generic parameters need to be filled with matching concrete
    /// variables when the function is instantiated at a later point.
    pub fn generic(&mut self, generic: GenericDeclaration<'_>) -> (r: DescriptorVar)
        requires
            old(self).wf(),
        ensures
            final(self).wf(),
            final(self).ops@ == old(self).ops@,
            final(self).symbols@ == old(self).symbols@,
            final(self).knobs@ == old(self).knobs@,
            final(self).vars@.len() == old(self).vars@.len() + 1,
            r.0 == old(self).tys@.len(),
            final(self).tys@ == old(self).tys@.push(
                GenericDescriptor {
                    size: Generic::Generic(GenericVar(old(self).vars@.len() as usize)),
                    chroma: Generic::Generic(GenericVar(old(self).vars@.len() as usize)),
                },
            ),
    {
        let _ = generic.bounds;
        let bounds = TyVarBounds {};
        let tyvar = GenericVar(self.vars.len());
        self.vars.push(bounds);
        let descriptor = DescriptorVar(self.tys.len());
        self.tys.push(
            GenericDescriptor { size: Generic::Generic(tyvar), chroma: Generic::Generic(tyvar) },
        );
        proof {
            let nvars = self.vars@.len() as int;
            let nsym = self.symbols@.len() as int;
            assert forall|i: int| 0 <= i < self.ops@.len() implies op_wf(
                self.ops@,
                i,
                nvars,
                nsym,
            ) by {
                lemma_op_wf_more_vars(self.ops@, i, nvars - 1, nvars, nsym);
            }
        }
        descriptor
    }

    /// Create a descriptor variable by modifying another.
    ///
    /// Accepted exactly when the base variable exists.
    pub fn derive_descriptor(&mut self, var: DescriptorDerivation) -> (r: Result<
        DescriptorVar,
        CommandError,
    >)
        requires
            old(self).wf(),
        ensures
            final(self).wf(),
            final(self).ops@ == old(self).ops@,
            final(self).vars@ == old(self).vars@,
            final(self).symbols@ == old(self).symbols@,
            final(self).knobs@ == old(self).knobs@,
            match r {
                Ok(out) => {
                    &&& var.base.0 < old(self).tys@.len()
                    &&& out.0 == old(self).tys@.len()
                    &&& final(self).tys@ == old(self).tys@.push(
                        GenericDescriptor {
                            size: match var.size {
                                Some(size) => Generic::Concrete(size),
                                None => old(self).tys@[var.base.0 as int].size,
                            },
                            chroma: old(self).tys@[var.base.0 as int].chroma,
                        },
                    )
                },
                Err(e) => {
                    &&& var.base.0 >= old(self).tys@.len()
                    &&& e.inner is Other
                    &&& final(self).tys@ == old(self).tys@
                },
            },
    {
        let DescriptorDerivation { base, size } = var;
        if base.0 >= self.tys.len() {
            return Err(CommandError::other());
        }
        let from = self.tys[base.0];
        let desc = GenericDescriptor {
            size: match size {
                Some(size) => Generic::Concrete(size),
                None => from.size,
            },
            chroma: from.chroma,
        };
        let descriptor = DescriptorVar(self.tys.len());
        self.tys.push(desc);
        Ok(descriptor)
    }

    /// Create a descriptor variable describing a previous register.
    ///
    /// Accepted exactly when the register holds a texture.
    pub fn register_descriptor(&mut self, register: Register) -> (r: Result<
        DescriptorVar,
        CommandError,
    >)
        requires
            old(self).wf(),
        ensures
            final(self).wf(),
            final(self).ops@ == old(self).ops@,
            final(self).vars@ == old(self).vars@,
            final(self).symbols@ == old(self).symbols@,
            final(self).knobs@ == old(self).knobs@,
            match r {
                Ok(out) => {
                    &&& texture_desc_at(old(self).ops@, register.0 as int) is Some
                    &&& out.0 == old(self).tys@.len()
                    &&& final(self).tys@ == old(self).tys@.push(
                        texture_desc_at(old(self).ops@, register.0 as int)->0,
                    )
                },
                Err(e) => {
                    &&& texture_desc_at(old(self).ops@, register.0 as int) is None
                    &&& e.inner is Other
                    &&& final(self).tys@ == old(self).tys@
                },
            },
    {
        let generic = match self.describe_reg(register).as_texture() {
            Ok(desc) => *desc,
            Err(e) => {
                return Err(e);
            },
        };
        let descriptor = DescriptorVar(self.tys.len());
        self.tys.push(generic);
        proof {
            lemma_texture_desc_wf(
                self.ops@,
                register.0 as int,
                self.vars@.len() as int,
                self.symbols@.len() as int,
            );
        }
        Ok(descriptor)
    }
}

/// A well-formedness bound on the variables extends to any larger table.
pub proof fn lemma_op_wf_more_vars(ops: Seq<Op>, i: int, nvars: int, more: int, nsymbols: int)
    requires
        0 <= i < ops.len(),
        op_wf(ops, i, nvars, nsymbols),
        nvars <= more,
    ensures
        op_wf(ops, i, more, nsymbols),
{
}

/// The image type of any register of a well-formed buffer references only
/// declared parameters.
pub proof fn lemma_texture_desc_wf(ops: Seq<Op>, r: int, nvars: int, nsymbols: int)
    requires
        forall|i: int| 0 <= i < ops.len() ==> op_wf(ops, i, nvars, nsymbols),
        texture_desc_at(ops, r) is Some,
    ensures
        texture_desc_at(ops, r)->0.spec_wf(nvars),
{
    assert(op_wf(ops, r, nvars, nsymbols));
}


/// The input descriptors of the first `n` nodes, in order.
pub open spec fn input_descs_of(ops: Seq<Op>, n: int) -> Seq<GenericDescriptor>
    decreases n,
{
    if n <= 0 {
        Seq::empty()
    } else {
        input_descs_of(ops, n - 1) + (match ops[n - 1] {
            Op::Input { desc } => seq![desc],
            _ => Seq::empty(),
        })
    }
}

/// The descriptors surfaced by the outputs of the first `n` nodes, in order.
pub open spec fn output_descs_of(ops: Seq<Op>, n: int) -> Seq<GenericDescriptor>
    decreases n,
{
    if n <= 0 {
        Seq::empty()
    } else {
        output_descs_of(ops, n - 1) + (match ops[n - 1] {
            Op::Output { src } => seq![texture_desc_at(ops, src.0 as int)->0],
            _ => Seq::empty(),
        })
    }
}

impl CommandBuffer {
    /// Calculate the signature based on generics, inputs and outputs.
    pub fn computed_signature(&self) -> (r: CommandSignature)
        requires
            self.wf(),
        ensures
            r.vars@ == self.vars@,
            r.input@ == input_descs_of(self.ops@, self.ops@.len() as int),
            r.output@ == output_descs_of(self.ops@, self.ops@.len() as int),
            r.spec_wf(),
    {
        let mut input: Vec<GenericDescriptor> = Vec::new();
        let mut output: Vec<GenericDescriptor> = Vec::new();
        let mut i: usize = 0;
        while i < self.ops.len()
            invariant
                self.wf(),
                i <= self.ops@.len(),
                input@ == input_descs_of(self.ops@, i as int),
                output@ == output_descs_of(self.ops@, i as int),
                forall|k: int|
                    0 <= k < input@.len() ==> (#[trigger] input@[k]).spec_wf(
                        self.vars@.len() as int,
                    ),
                forall|k: int|
                    0 <= k < output@.len() ==> (#[trigger] output@[k]).spec_wf(
                        self.vars@.len() as int,
                    ),
            decreases self.ops@.len() - i,
        {
            proof {
                assert(op_wf(
                    self.ops@,
                    i as int,
                    self.vars@.len() as int,
                    self.symbols@.len() as int,
                ));
            }
            match &self.ops[i] {
                Op::Input { desc } => {
                    input.push(*desc);
                },
                Op::Output { src } => {
                    let src = *src;
                    match self.describe_reg(src).as_texture() {
                        Ok(desc) => {
                            proof {
                                lemma_texture_desc_wf(
                                    self.ops@,
                                    src.0 as int,
                                    self.vars@.len() as int,
                                    self.symbols@.len() as int,
                                );
                            }
                            output.push(*desc);
                        },
                        Err(_) => {
                            proof {
                                assert(false);
                            }
                        },
                    }
                },
                _ => {},
            }
            i = i + 1;
        }
        let vars = self.clone_vars();
        CommandSignature { vars, input, output }
    }

    /// A copy of the bounds table.
    fn clone_vars(&self) -> (r: Vec<TyVarBounds>)
        ensures
            r@.len() == self.vars@.len(),
    {
        let mut vars: Vec<TyVarBounds> = Vec::new();
        let mut i: usize = 0;
        while i < self.vars.len()
            invariant
                i <= self.vars@.len(),
                vars@.len() == i,
            decreases self.vars@.len() - i,
        {
            vars.push(TyVarBounds {});
            i = i + 1;
        }
        vars
    }

    /// Declare a function that is linked in later.
    ///
    /// The signature is accepted exactly when all its descriptors reference
    /// only its own generic parameters.
    pub fn function(&mut self, signature: CommandSignature) -> (r: Result<
        FunctionVar,
        CommandError,
    >)
        requires
            old(self).wf(),
        ensures
            final(self).wf(),
            final(self).ops@ == old(self).ops@,
            final(self).vars@ == old(self).vars@,
            final(self).tys@ == old(self).tys@,
            final(self).knobs@ == old(self).knobs@,
            match r {
                Ok(var) => {
                    &&& signature.spec_wf()
                    &&& var.0 == old(self).symbols@.len()
                    &&& final(self).symbols@ == old(self).symbols@.push(signature)
                },
                Err(e) => {
                    &&& !signature.spec_wf()
                    &&& e.inner is GenericTypeError
                    &&& final(self).symbols@ == old(self).symbols@
                },
            },
    {
        if !signature_is_wf(&signature) {
            return Err(CommandError::type_err());
        }
        let symbol = FunctionVar(self.symbols.len());
        let ghost prior = *self;
        self.symbols.push(signature);
        proof {
            let nvars = self.vars@.len() as int;
            let nsym = self.symbols@.len() as int;
            assert forall|i: int| 0 <= i < self.ops@.len() implies op_wf(
                self.ops@,
                i,
                nvars,
                nsym,
            ) by {
                lemma_op_wf_more_symbols(self.ops@, i, nvars, nsym - 1, nsym);
            }
        }
        Ok(symbol)
    }
}

/// A well-formedness bound on the symbols extends to any larger table.
pub proof fn lemma_op_wf_more_symbols(ops: Seq<Op>, i: int, nvars: int, nsymbols: int, more: int)
    requires
        0 <= i < ops.len(),
        op_wf(ops, i, nvars, nsymbols),
        nsymbols <= more,
    ensures
        op_wf(ops, i, nvars, more),
{
}

/// Check that all descriptors of a signature reference only its declared
/// parameters.
fn signature_is_wf(signature: &CommandSignature) -> (r: bool)
    ensures
        r == signature.spec_wf(),
{
    let nvars = signature.vars.len();
    let mut i: usize = 0;
    while i < signature.input.len()
        invariant
            i <= signature.input@.len(),
            nvars == signature.vars@.len(),
            forall|k: int|
                0 <= k < i ==> (#[trigger] signature.input@[k]).spec_wf(
                    signature.vars@.len() as int,
                ),
        decreases signature.input@.len() - i,
    {
        if !desc_in_vars(&signature.input[i], nvars) {
            return false;
        }
        i = i + 1;
    }
    let mut j: usize = 0;
    while j < signature.output.len()
        invariant
            j <= signature.output@.len(),
            nvars == signature.vars@.len(),
            forall|k: int|
                0 <= k < signature.input@.len() ==> (#[trigger] signature.input@[k]).spec_wf(
                    signature.vars@.len() as int,
                ),
            forall|k: int|
                0 <= k < j ==> (#[trigger] signature.output@[k]).spec_wf(
                    signature.vars@.len() as int,
                ),
        decreases signature.output@.len() - j,
    {
        if !desc_in_vars(&signature.output[j], nvars) {
            return false;
        }
        j = j + 1;
    }
    true
}

/// Check that one descriptor references only the first `nvars` parameters.
fn desc_in_vars(desc: &GenericDescriptor, nvars: usize) -> (r: bool)
    ensures
        r == desc.spec_wf(nvars as int),
{
    let size_ok = match desc.size {
        Generic::Concrete(_) => true,
        Generic::Generic(v) => v.0 < nvars,
    };
    let chroma_ok = match desc.chroma {
        Generic::Concrete(_) => true,
        Generic::Generic(v) => v.0 < nvars,
    };
    size_ok && chroma_ok
}


/// Appending any suffix does not disturb the types of existing registers.
pub proof fn lemma_desc_at_extend(ops: Seq<Op>, ext: Seq<Op>)
    ensures
        forall|r: int|
            0 <= r < ops.len() ==> #[trigger] texture_desc_at(ops + ext, r) == texture_desc_at(
                ops,
                r,
            ),
        forall|r: int|
            0 <= r < ops.len() ==> #[trigger] buffer_desc_at(ops + ext, r) == buffer_desc_at(
                ops,
                r,
            ),
{
    assert forall|r: int| 0 <= r < ops.len() implies #[trigger] texture_desc_at(ops + ext, r)
        == texture_desc_at(ops, r) by {
        assert((ops + ext)[r] == ops[r]);
    }
    assert forall|r: int| 0 <= r < ops.len() implies #[trigger] buffer_desc_at(ops + ext, r)
        == buffer_desc_at(ops, r) by {
        assert((ops + ext)[r] == ops[r]);
    }
}

/// A well-formed instruction list stays well formed in its prefix when any
/// suffix is appended.
pub proof fn lemma_ops_wf_extend(ops: Seq<Op>, ext: Seq<Op>, nvars: int, nsymbols: int)
    requires
        forall|i: int| 0 <= i < ops.len() ==> op_wf(ops, i, nvars, nsymbols),
    ensures
        forall|i: int| 0 <= i < ops.len() ==> op_wf(ops + ext, i, nvars, nsymbols),
{
    lemma_desc_at_extend(ops, ext);
    assert forall|i: int| 0 <= i < ops.len() implies op_wf(ops + ext, i, nvars, nsymbols) by {
        assert((ops + ext)[i] == ops[i]);
        assert(op_wf(ops, i, nvars, nsymbols));
    }
}

/// A rewritten descriptor references only parameters that the declarations
/// it was rewritten with reference.
pub proof fn lemma_rewrite_wf(desc: GenericDescriptor, decl: Seq<GenericDescriptor>, nvars: int)
    requires
        desc.spec_wf(decl.len() as int),
        forall|k: int| 0 <= k < decl.len() ==> (#[trigger] decl[k]).spec_wf(nvars),
    ensures
        desc.spec_rewrite(decl).spec_wf(nvars),
{
}

/// Copy a slice of registers.
fn copy_registers(regs: &[Register]) -> (r: Vec<Register>)
    ensures
        r@ == regs@,
{
    let mut out: Vec<Register> = Vec::new();
    let mut i: usize = 0;
    while i < regs.len()
        invariant
            i <= regs@.len(),
            out@ == regs@.take(i as int),
        decreases regs@.len() - i,
    {
        out.push(regs[i]);
        proof {
            assert(regs@.take(i + 1) =~= regs@.take(i as int).push(regs@[i as int]));
        }
        i = i + 1;
    }
    proof {
        assert(regs@.take(regs@.len() as int) =~= regs@);
    }
    out
}

/// When `invoke` accepts its arguments: the function is declared, the
/// type and value arities match its signature, every type argument is a
/// declared descriptor variable, every value argument's type equals the
/// parameter type rewritten under those type arguments, and the new nodes
/// stay countable.
pub open spec fn spec_invoke_accepted(
    cmd: CommandBuffer,
    function: FunctionVar,
    generics: Seq<DescriptorVar>,
    arguments: Seq<Register>,
) -> bool {
    &&& function.0 < cmd.symbols@.len()
    &&& {
        let sig = cmd.symbols@[function.0 as int];
        let gdescs = Seq::new(generics.len(), |k: int| cmd.tys@[generics[k].0 as int]);
        &&& sig.input@.len() == arguments.len()
        &&& sig.vars@.len() == generics.len()
        &&& forall|k: int|
            0 <= k < generics.len() ==> (#[trigger] generics[k]).0 < cmd.tys@.len()
        &&& forall|k: int|
            0 <= k < arguments.len() ==> texture_desc_at(
                cmd.ops@,
                (#[trigger] arguments[k]).0 as int,
            ) == Some(sig.input@[k].spec_rewrite(gdescs))
        &&& cmd.ops@.len() + sig.output@.len() + 1 <= usize::MAX
    }
}

impl CommandBuffer {
    /// The sequence of result nodes that an invocation defines.
    pub open spec fn spec_invoked_results(
        oldlen: int,
        outputs: Seq<GenericDescriptor>,
        gdescs: Seq<GenericDescriptor>,
    ) -> Seq<Op> {
        Seq::new(
            outputs.len(),
            |k: int|
                Op::InvokedResult {
                    invocation: Register((oldlen + outputs.len()) as usize),
                    desc: outputs[k].spec_rewrite(gdescs),
                },
        )
    }

    /// Declare an invocation of a separate, possibly generic, function.
    ///
    /// The call validates the declaration, the arity of type and value
    /// arguments, and that every argument's type equals the parameter type
    /// rewritten under the given generics; it then defines one result
    /// register per declared output, followed by the call itself.
    pub fn invoke(&mut self, function: FunctionVar, invoke: InvocationArguments<'_>) -> (r: Result<
        Vec<Register>,
        CommandError,
    >)
        requires
            old(self).wf(),
        ensures
            final(self).wf(),
            final(self).spec_same_tables(*old(self)),
            match r {
                Ok(results) => {
                    let sig = old(self).symbols@[function.0 as int];
                    let gdescs = Seq::new(
                        invoke.generics@.len(),
                        |k: int| old(self).tys@[invoke.generics@[k].0 as int],
                    );
                    let oldlen = old(self).ops@.len() as int;
                    let nout = sig.output@.len() as int;
                    &&& function.0 < old(self).symbols@.len()
                    &&& sig.input@.len() == invoke.arguments@.len()
                    &&& sig.vars@.len() == invoke.generics@.len()
                    &&& forall|k: int|
                        0 <= k < invoke.generics@.len() ==> (#[trigger] invoke.generics@[k]).0
                            < old(self).tys@.len()
                    &&& forall|k: int|
                        0 <= k < invoke.arguments@.len() ==> texture_desc_at(
                            old(self).ops@,
                            (#[trigger] invoke.arguments@[k]).0 as int,
                        ) == Some(sig.input@[k].spec_rewrite(gdescs))
                    &&& results@.len() == nout
                    &&& forall|k: int|
                        0 <= k < nout ==> (#[trigger] results@[k]) == Register((oldlen + k) as usize)
                    &&& final(self).ops@.len() == oldlen + nout + 1
                    &&& final(self).ops@.take(oldlen) == old(self).ops@
                    &&& forall|k: int|
                        0 <= k < nout ==> final(self).ops@[oldlen + k] == (Op::InvokedResult {
                            invocation: Register((oldlen + nout) as usize),
                            desc: sig.output@[k].spec_rewrite(gdescs),
                        })
                    &&& final(self).ops@[oldlen + nout] matches Op::Invoke {
                        function: f2,
                        arguments: a2,
                        results: r2,
                        generics: g2,
                    } && f2 == function && a2@ == invoke.arguments@ && r2@ == results@ && g2@
                        == gdescs
                },
                Err(e) => {
                    &&& e.inner is Other
                    &&& final(self).spec_unchanged(*old(self))
                    &&& !spec_invoke_accepted(
                        *old(self),
                        function,
                        invoke.generics@,
                        invoke.arguments@,
                    )
                },
            },
    {
        if function.0 >= self.symbols.len() {
            return Err(CommandError::other());
        }
        if self.symbols[function.0].input.len() != invoke.arguments.len() {
            return Err(CommandError::other());
        }
        if self.symbols[function.0].vars.len() != invoke.generics.len() {
            return Err(CommandError::other());
        }
        let nout = self.symbols[function.0].output.len();
        if usize::MAX - self.ops.len() < nout || usize::MAX - self.ops.len() - nout < 1 {
            return Err(CommandError::other());
        }
        let mut gdescs: Vec<GenericDescriptor> = Vec::new();
        let mut i: usize = 0;
        while i < invoke.generics.len()
            invariant
                old(self).wf(),
                self.spec_unchanged(*old(self)),
                i <= invoke.generics@.len(),
                gdescs@ == Seq::new(
                    i as nat,
                    |k: int| old(self).tys@[invoke.generics@[k].0 as int],
                ),
                forall|k: int|
                    0 <= k < i ==> (#[trigger] invoke.generics@[k]).0 < old(self).tys@.len(),
            decreases invoke.generics@.len() - i,
        {
            if invoke.generics[i].0 >= self.tys.len() {
                return Err(CommandError::other());
            }
            gdescs.push(self.tys[invoke.generics[i].0]);
            proof {
                assert(gdescs@ =~= Seq::new(
                    (i + 1) as nat,
                    |k: int| old(self).tys@[invoke.generics@[k].0 as int],
                ));
            }
            i = i + 1;
        }
        proof {
            assert forall|k: int| 0 <= k < gdescs@.len() implies (#[trigger] gdescs@[k]).spec_wf(
                self.vars@.len() as int,
            ) by {
                assert(self.tys@[invoke.generics@[k].0 as int].spec_wf(self.vars@.len() as int));
            }
        }
        let mut j: usize = 0;
        while j < invoke.arguments.len()
            invariant
                old(self).wf(),
                self.spec_unchanged(*old(self)),
                function.0 < self.symbols@.len(),
                self.symbols@[function.0 as int].input@.len() == invoke.arguments@.len(),
                self.symbols@[function.0 as int].vars@.len() == gdescs@.len(),
                gdescs@ == Seq::new(
                    invoke.generics@.len(),
                    |k: int| old(self).tys@[invoke.generics@[k].0 as int],
                ),
                j <= invoke.arguments@.len(),
                forall|k: int|
                    0 <= k < j ==> texture_desc_at(
                        old(self).ops@,
                        (#[trigger] invoke.arguments@[k]).0 as int,
                    ) == Some(
                        self.symbols@[function.0 as int].input@[k].spec_rewrite(gdescs@),
                    ),
            decreases invoke.arguments@.len() - j,
        {
            proof {
                assert(self.symbols@[function.0 as int].spec_wf());
            }
            let expected = self.symbols[function.0].input[j].rewrite(&gdescs);
            let arg = invoke.arguments[j];
            let arg_ty = match self.describe_reg(arg).as_texture() {
                Ok(desc) => *desc,
                Err(e) => {
                    return Err(e);
                },
            };
            if !expected.same_type(&arg_ty) {
                return Err(CommandError::other());
            }
            j = j + 1;
        }
        let ghost prior = *self;
        let ghost gdescs_ghost = gdescs@;
        let invocation = Register(self.ops.len() + nout);
        let mut results: Vec<Register> = Vec::new();
        let mut k: usize = 0;
        while k < nout
            invariant
                prior.wf(),
                function.0 < prior.symbols@.len(),
                nout == prior.symbols@[function.0 as int].output@.len(),
                prior.symbols@[function.0 as int].vars@.len() == gdescs@.len(),
                gdescs@ == gdescs_ghost,
                invocation.0 == prior.ops@.len() + nout,
                prior.ops@.len() + nout < usize::MAX,
                k <= nout,
                self.spec_same_tables(prior),
                self.ops@ == prior.ops@ + Self::spec_invoked_results(
                    prior.ops@.len() as int,
                    prior.symbols@[function.0 as int].output@,
                    gdescs_ghost,
                ).take(k as int),
                results@.len() == k,
                forall|l: int|
                    0 <= l < k ==> (#[trigger] results@[l]) == Register(
                        (prior.ops@.len() + l) as usize,
                    ),
            decreases nout - k,
        {
            results.push(Register(self.ops.len()));
            let desc = self.symbols[function.0].output[k].rewrite(&gdescs);
            self.push(Op::InvokedResult { invocation, desc });
            proof {
                assert(self.ops@ =~= prior.ops@ + Self::spec_invoked_results(
                    prior.ops@.len() as int,
                    prior.symbols@[function.0 as int].output@,
                    gdescs_ghost,
                ).take(k + 1));
            }
            k = k + 1;
        }
        let args_vec = copy_registers(invoke.arguments);
        let results_vec = copy_registers(results.as_slice());
        let op = Op::Invoke {
            function,
            arguments: args_vec,
            results: results_vec,
            generics: gdescs,
        };
        let ghost op_spec = op;
        self.push(op);
        proof {
            let nvars = prior.vars@.len() as int;
            let nsym = prior.symbols@.len() as int;
            let oldlen = prior.ops@.len() as int;
            let outputs = prior.symbols@[function.0 as int].output@;
            let mids = Self::spec_invoked_results(oldlen, outputs, gdescs_ghost);
            assert(mids.take(nout as int) =~= mids);
            assert(self.ops@ =~= prior.ops@ + mids + seq![op_spec]);
            let ext = mids + seq![op_spec];
            assert(prior.ops@ + mids + seq![op_spec] =~= prior.ops@ + ext);
            lemma_ops_wf_extend(prior.ops@, ext, nvars, nsym);
            lemma_desc_at_extend(prior.ops@, ext);
            assert(prior.symbols@[function.0 as int].spec_wf());
            assert forall|l: int| oldlen <= l < self.ops@.len() implies op_wf(
                self.ops@,
                l,
                nvars,
                nsym,
            ) by {
                if l < oldlen + nout {
                    assert(self.ops@[l] == mids[l - oldlen]);
                    lemma_rewrite_wf(outputs[l - oldlen], gdescs_ghost, nvars);
                } else {
                    assert(self.ops@[l] == op_spec);
                    assert forall|m: int| 0 <= m < results_vec@.len() implies (
                    #[trigger] results_vec@[m]).0 < l && texture_desc_at(
                        self.ops@,
                        results_vec@[m].0 as int,
                    ) is Some by {
                        assert(results_vec@[m] == Register((oldlen + m) as usize));
                        assert(self.ops@[oldlen + m] == mids[m]);
                    }
                    assert forall|m: int| 0 <= m < args_vec@.len() implies (
                    #[trigger] args_vec@[m]).0 < l && texture_desc_at(
                        self.ops@,
                        args_vec@[m].0 as int,
                    ) is Some by {
                        assert(texture_desc_at(prior.ops@, args_vec@[m].0 as int) is Some);
                    }
                    assert forall|m: int| 0 <= m < gdescs_ghost.len() implies (
                    #[trigger] gdescs_ghost[m]).spec_wf(nvars) by {
                        assert(prior.tys@[invoke.generics@[m].0 as int].spec_wf(nvars));
                    }
                }
            }
        }
        Ok(results)
    }
}


impl CommandBuffer {
    /// Select a rectangular part of an image.
    ///
    /// The chroma is preserved; the size becomes the size of the rectangle.
    /// Accepted exactly when the source holds a texture.
    pub fn crop(&mut self, src: Register, rect: Rectangle) -> (r: Result<Register, CommandError>)
        requires
            old(self).wf(),
        ensures
            final(self).wf(),
            final(self).spec_same_tables(*old(self)),
            match r {
                Ok(reg) => {
                    &&& texture_desc_at(old(self).ops@, src.0 as int) matches Some(desc)
                        && final(self).ops@ == old(self).ops@.push(
                        Op::Unary {
                            src,
                            op: UnaryOp::Crop(rect),
                            desc: GenericDescriptor {
                                size: Generic::Concrete(
                                    ((rect.spec_width()) as u32, (rect.spec_height()) as u32),
                                ),
                                chroma: desc.chroma,
                            },
                        },
                    )
                    &&& reg.0 == old(self).ops@.len()
                },
                Err(e) => {
                    &&& texture_desc_at(old(self).ops@, src.0 as int) is None
                    &&& e.inner is Other
                    &&& final(self).spec_unchanged(*old(self))
                },
            },
    {
        let desc = match self.describe_reg(src).as_texture() {
            Ok(desc) => *desc,
            Err(e) => {
                return Err(e);
            },
        };
        let op = Op::Unary {
            src,
            op: UnaryOp::Crop(rect),
            desc: GenericDescriptor {
                size: Generic::Concrete((rect.width(), rect.height())),
                chroma: desc.chroma,
            },
        };
        let ghost op_spec = op;
        let ghost prior = *self;
        let reg = self.push(op);
        proof {
            assert(op_wf(
                self.ops@,
                prior.ops@.len() as int,
                prior.vars@.len() as int,
                prior.symbols@.len() as int,
            )) by {
                lemma_desc_at_push(prior.ops@, op_spec);
                assert(op_wf(
                    prior.ops@,
                    src.0 as int,
                    prior.vars@.len() as int,
                    prior.symbols@.len() as int,
                ));
            }
            self.lemma_builder_push(prior, op_spec);
        }
        Ok(reg)
    }

    /// Calculate the derivative of an image.
    ///
    /// The derivative is taken over the color channels; the alpha channel is
    /// copied from the source pixel. Accepted exactly when the source holds
    /// a texture.
    pub fn derivative(&mut self, image: Register, config: Derivative) -> (r: Result<
        Register,
        CommandError,
    >)
        requires
            old(self).wf(),
        ensures
            final(self).wf(),
            final(self).spec_same_tables(*old(self)),
            match r {
                Ok(reg) => {
                    &&& texture_desc_at(old(self).ops@, image.0 as int) matches Some(desc)
                        && final(self).ops@ == old(self).ops@.push(
                        Op::Unary { src: image, op: UnaryOp::Derivative(config), desc },
                    )
                    &&& reg.0 == old(self).ops@.len()
                },
                Err(e) => {
                    &&& texture_desc_at(old(self).ops@, image.0 as int) is None
                    &&& e.inner is Other
                    &&& final(self).spec_unchanged(*old(self))
                },
            },
    {
        let desc = match self.describe_reg(image).as_texture() {
            Ok(desc) => *desc,
            Err(e) => {
                return Err(e);
            },
        };
        let op = Op::Unary { src: image, op: UnaryOp::Derivative(config), desc };
        let ghost op_spec = op;
        let ghost prior = *self;
        let reg = self.push(op);
        proof {
            lemma_desc_at_push(prior.ops@, op_spec);
            lemma_texture_desc_wf(
                prior.ops@,
                image.0 as int,
                prior.vars@.len() as int,
                prior.symbols@.len() as int,
            );
            self.lemma_builder_push(prior, op_spec);
        }
        Ok(reg)
    }

    /// Overlay this image as part of a larger one, performing blending.
    ///
    /// No blending mode is implemented yet; every call reports so.
    pub fn blend(
        &mut self,
        below: Register,
        rect: Rectangle,
        above: Register,
        blend: Blend,
    ) -> (r: Result<Register, CommandError>)
        requires
            old(self).wf(),
        ensures
            final(self).wf(),
            final(self).spec_unchanged(*old(self)),
            r matches Err(e) && e.inner is Unimplemented,
    {
        let _ = (below, rect, above, blend);
        Err(CommandError::unimplemented())
    }

    /// Declare an output.
    ///
    /// Outputs are retrieved by the host when the linked program is
    /// launched. Accepted exactly when the source holds a texture; the
    /// declared format is returned with the register.
    pub fn output(&mut self, src: Register) -> (r: Result<
        (Register, GenericDescriptor),
        CommandError,
    >)
        requires
            old(self).wf(),
        ensures
            final(self).wf(),
            final(self).spec_same_tables(*old(self)),
            match r {
                Ok((reg, outformat)) => {
                    &&& texture_desc_at(old(self).ops@, src.0 as int) == Some(outformat)
                    &&& final(self).ops@ == old(self).ops@.push(Op::Output { src })
                    &&& reg.0 == old(self).ops@.len()
                },
                Err(e) => {
                    &&& texture_desc_at(old(self).ops@, src.0 as int) is None
                    &&& e.inner is Other
                    &&& final(self).spec_unchanged(*old(self))
                },
            },
    {
        let outformat = match self.describe_reg(src).as_texture() {
            Ok(desc) => *desc,
            Err(e) => {
                return Err(e);
            },
        };
        let op = Op::Output { src };
        let ghost op_spec = op;
        let ghost prior = *self;
        let register = self.push(op);
        proof {
            lemma_desc_at_push(prior.ops@, op_spec);
            self.lemma_builder_push(prior, op_spec);
        }
        Ok((register, outformat))
    }

    /// Declare a render target.
    ///
    /// Render targets are bound by the host at launch, like outputs, but
    /// are never read back. Accepted exactly when the source holds a
    /// concrete texture with a native device representation.
    pub fn render(&mut self, src: Register) -> (r: Result<(Register, Descriptor), CommandError>)
        requires
            old(self).wf(),
        ensures
            final(self).wf(),
            final(self).spec_same_tables(*old(self)),
            match r {
                Ok((reg, outformat)) => {
                    &&& texture_desc_at(old(self).ops@, src.0 as int) matches Some(desc)
                        && desc.spec_as_concrete() == Some(outformat)
                    &&& outformat.spec_renderable()
                    &&& final(self).ops@ == old(self).ops@.push(Op::Render { src })
                    &&& reg.0 == old(self).ops@.len()
                },
                Err(e) => {
                    &&& final(self).spec_unchanged(*old(self))
                    &&& match texture_desc_at(old(self).ops@, src.0 as int) {
                        None => e.inner is Other,
                        Some(desc) => match desc.spec_as_concrete() {
                            None => e.inner is ConcreteDescriptorRequired,
                            Some(concrete) => !concrete.spec_renderable() && e.inner
                                is GenericTypeError,
                        },
                    }
                },
            },
    {
        let outformat = match self.describe_reg(src).as_texture() {
            Ok(desc) => *desc,
            Err(e) => {
                return Err(e);
            },
        };
        let outformat = match outformat.as_concrete() {
            Some(concrete) => concrete,
            None => {
                return Err(CommandError { inner: CommandErrorKind::ConcreteDescriptorRequired });
            },
        };
        if !outformat.is_renderable() {
            return Err(CommandError::type_err());
        }
        let op = Op::Render { src };
        let ghost op_spec = op;
        let ghost prior = *self;
        let register = self.push(op);
        proof {
            lemma_desc_at_push(prior.ops@, op_spec);
            self.lemma_builder_push(prior, op_spec);
        }
        Ok((register, outformat))
    }

    /// A solid color image, from a descriptor and a single color given as
    /// four single-precision bit patterns.
    ///
    /// Accepted exactly when the descriptor is consistent and stores one
    /// full vec4 per texel.
    pub fn solid_rgba(&mut self, describe: Descriptor, color: [u32; 4]) -> (r: Result<
        Register,
        CommandError,
    >)
        requires
            old(self).wf(),
        ensures
            final(self).wf(),
            final(self).spec_same_tables(*old(self)),
            match r {
                Ok(reg) => {
                    &&& describe.spec_consistent()
                    &&& describe.layout.texel_stride == 4
                    &&& final(self).ops@ == old(self).ops@.push(
                        Op::Construct {
                            desc: GenericDescriptor::spec_of_descriptor(describe),
                            op: ConstructOp::Solid(color),
                        },
                    )
                    &&& reg.0 == old(self).ops@.len()
                },
                Err(e) => {
                    &&& !(describe.spec_consistent() && describe.layout.texel_stride == 4)
                    &&& e.inner is BadDescriptor
                    &&& final(self).spec_unchanged(*old(self))
                },
            },
    {
        if !describe.is_consistent() || describe.layout.texel_stride != 4 {
            return Err(
                CommandError {
                    inner: CommandErrorKind::BadDescriptor(
                        GenericDescriptor::of_descriptor(&describe),
                    ),
                },
            );
        }
        let op = Op::Construct {
            desc: GenericDescriptor::of_descriptor(&describe),
            op: ConstructOp::Solid(color),
        };
        let ghost op_spec = op;
        let ghost prior = *self;
        let reg = self.push(op);
        proof {
            self.lemma_builder_push(prior, op_spec);
        }
        Ok(reg)
    }

    /// A two-dimensional image of a normal distribution.
    ///
    /// The texel must be compatible with a single gray channel. Accepted
    /// exactly when the descriptor is consistent and holds luminance parts.
    pub fn distribution_normal2d(
        &mut self,
        describe: Descriptor,
        distribution: shaders::distribution_normal2d::Shader,
    ) -> (r: Result<Register, CommandError>)
        requires
            old(self).wf(),
        ensures
            final(self).wf(),
            final(self).spec_same_tables(*old(self)),
            match r {
                Ok(reg) => {
                    &&& describe.spec_consistent()
                    &&& describe.texel.parts == SampleParts::Luma || describe.texel.parts
                        == SampleParts::LumaA
                    &&& final(self).ops@ == old(self).ops@.push(
                        Op::Construct {
                            desc: GenericDescriptor::spec_of_descriptor(describe),
                            op: ConstructOp::DistributionNormal(distribution),
                        },
                    )
                    &&& reg.0 == old(self).ops@.len()
                },
                Err(e) => {
                    &&& !(describe.spec_consistent() && (describe.texel.parts == SampleParts::Luma
                        || describe.texel.parts == SampleParts::LumaA))
                    &&& e.inner is BadDescriptor
                    &&& final(self).spec_unchanged(*old(self))
                },
            },
    {
        if !describe.is_consistent() {
            return Err(
                CommandError {
                    inner: CommandErrorKind::BadDescriptor(
                        GenericDescriptor::of_descriptor(&describe),
                    ),
                },
            );
        }
        let parts_ok = match describe.texel.parts {
            SampleParts::Luma => true,
            SampleParts::LumaA => true,
            _ => false,
        };
        if !parts_ok {
            return Err(
                CommandError {
                    inner: CommandErrorKind::BadDescriptor(
                        GenericDescriptor::of_descriptor(&describe),
                    ),
                },
            );
        }
        let op = Op::Construct {
            desc: GenericDescriptor::of_descriptor(&describe),
            op: ConstructOp::DistributionNormal(distribution),
        };
        let ghost op_spec = op;
        let ghost prior = *self;
        let reg = self.push(op);
        proof {
            self.lemma_builder_push(prior, op_spec);
        }
        Ok(reg)
    }

    /// A two-dimensional image of fractal brownian noise: each of the four
    /// color channels holds uncorrelated one-dimensional fractal noise.
    ///
    /// Accepted exactly when the descriptor is consistent.
    pub fn distribution_fractal_noise(
        &mut self,
        describe: Descriptor,
        distribution: shaders::fractal_noise::Shader,
    ) -> (r: Result<Register, CommandError>)
        requires
            old(self).wf(),
        ensures
            final(self).wf(),
            final(self).spec_same_tables(*old(self)),
            match r {
                Ok(reg) => {
                    &&& describe.spec_consistent()
                    &&& final(self).ops@ == old(self).ops@.push(
                        Op::Construct {
                            desc: GenericDescriptor::spec_of_descriptor(describe),
                            op: ConstructOp::DistributionNoise(distribution),
                        },
                    )
                    &&& reg.0 == old(self).ops@.len()
                },
                Err(e) => {
                    &&& !describe.spec_consistent()
                    &&& e.inner is BadDescriptor
                    &&& final(self).spec_unchanged(*old(self))
                },
            },
    {
        if !describe.is_consistent() {
            return Err(
                CommandError {
                    inner: CommandErrorKind::BadDescriptor(
                        GenericDescriptor::of_descriptor(&describe),
                    ),
                },
            );
        }
        let op = Op::Construct {
            desc: GenericDescriptor::of_descriptor(&describe),
            op: ConstructOp::DistributionNoise(distribution),
        };
        let ghost op_spec = op;
        let ghost prior = *self;
        let reg = self.push(op);
        proof {
            self.lemma_builder_push(prior, op_spec);
        }
        Ok(reg)
    }

    /// Evaluate a bilinear function over a two-dimensional image.
    ///
    /// Accepted exactly when the descriptor is consistent.
    pub fn bilinear(&mut self, describe: Descriptor, distribution: shaders::bilinear::Shader) -> (r:
        Result<Register, CommandError>)
        requires
            old(self).wf(),
        ensures
            final(self).wf(),
            final(self).spec_same_tables(*old(self)),
            match r {
                Ok(reg) => {
                    &&& describe.spec_consistent()
                    &&& final(self).ops@ == old(self).ops@.push(
                        Op::Construct {
                            desc: GenericDescriptor::spec_of_descriptor(describe),
                            op: ConstructOp::Bilinear(distribution),
                        },
                    )
                    &&& reg.0 == old(self).ops@.len()
                },
                Err(e) => {
                    &&& !describe.spec_consistent()
                    &&& e.inner is BadDescriptor
                    &&& final(self).spec_unchanged(*old(self))
                },
            },
    {
        if !describe.is_consistent() {
            return Err(
                CommandError {
                    inner: CommandErrorKind::BadDescriptor(
                        GenericDescriptor::of_descriptor(&describe),
                    ),
                },
            );
        }
        let op = Op::Construct {
            desc: GenericDescriptor::of_descriptor(&describe),
            op: ConstructOp::Bilinear(distribution),
        };
        let ghost op_spec = op;
        let ghost prior = *self;
        let reg = self.push(op);
        proof {
            self.lemma_builder_push(prior, op_spec);
        }
        Ok(reg)
    }
}


/// Commands that operate on byte buffers.
impl CommandBuffer {
    /// Construct a buffer by initializing it with data from memory.
    ///
    /// The bytes are copied into a buffer held by the execution state; see
    /// [`WithKnob::buffer_init`] to replace them on each launch.
    pub fn buffer_init(&mut self, init: &[u8]) -> (r: Register)
        requires
            old(self).wf(),
        ensures
            final(self).wf(),
            final(self).spec_same_tables(*old(self)),
            final(self).ops@.len() == old(self).ops@.len() + 1,
            final(self).ops@.take(old(self).ops@.len() as int) == old(self).ops@,
            final(self).ops@.last() matches Op::BufferInit {
                desc,
                op: BufferInitOp::FromData { start, end, data },
            } && desc == (GenericBuffer { size: Generic::Concrete(init@.len() as u64) }) && start
                == 0 && end == init@.len() && data@ == init@,
            r.0 == old(self).ops@.len(),
    {
        let size = init.len() as u64;
        let data = copy_bytes(init);
        let op = Op::BufferInit {
            desc: GenericBuffer { size: Generic::Concrete(size) },
            op: BufferInitOp::FromData { start: 0, end: init.len(), data },
        };
        let ghost op_spec = op;
        let ghost prior = *self;
        let reg = self.push(op);
        proof {
            self.lemma_builder_push(prior, op_spec);
            assert(self.ops@.take(prior.ops@.len() as int) =~= prior.ops@);
        }
        reg
    }

    /// Construct a buffer that is fully zeroed.
    pub fn buffer_zero(&mut self, len: u64) -> (r: Register)
        requires
            old(self).wf(),
        ensures
            final(self).wf(),
            final(self).spec_same_tables(*old(self)),
            final(self).ops@.len() == old(self).ops@.len() + 1,
            final(self).ops@.take(old(self).ops@.len() as int) == old(self).ops@,
            final(self).ops@.last() matches Op::BufferInit {
                desc,
                op: BufferInitOp::FromData { start, end, data },
            } && desc == (GenericBuffer { size: Generic::Concrete(len) }) && start == 0 && end == 0
                && data@.len() == 0,
            r.0 == old(self).ops@.len(),
    {
        let op = Op::BufferInit {
            desc: GenericBuffer { size: Generic::Concrete(len) },
            op: BufferInitOp::FromData { start: 0, end: 0, data: Vec::new() },
        };
        let ghost op_spec = op;
        let ghost prior = *self;
        let reg = self.push(op);
        proof {
            self.lemma_builder_push(prior, op_spec);
            assert(final(self).ops@.take(prior.ops@.len() as int) =~= prior.ops@);
        }
        reg
    }

    /// Construct a buffer representing the encoded image data of a texture,
    /// each row padded as in device transfer memory.
    ///
    /// Accepted exactly when the register holds a concrete texture whose
    /// padded size is representable.
    pub fn buffer_from_image(&mut self, register: Register) -> (r: Result<Register, CommandError>)
        requires
            old(self).wf(),
        ensures
            final(self).wf(),
            final(self).spec_same_tables(*old(self)),
            match r {
                Ok(reg) => {
                    &&& texture_desc_at(old(self).ops@, register.0 as int) matches Some(desc)
                        && desc.spec_as_concrete() matches Some(concrete)
                        && concrete.spec_gpu_len() <= u64::MAX && final(self).ops@ == old(self).ops@.push(
                        Op::BufferUnary {
                            src: register,
                            op: BufferUnaryOp::FromImage {  },
                            desc: GenericBuffer {
                                size: Generic::Concrete(concrete.spec_gpu_len() as u64),
                            },
                        },
                    )
                    &&& reg.0 == old(self).ops@.len()
                },
                Err(e) => {
                    &&& e.inner is Other
                    &&& final(self).spec_unchanged(*old(self))
                    &&& !(texture_desc_at(old(self).ops@, register.0 as int) matches Some(desc)
                        && desc.spec_as_concrete() matches Some(concrete)
                        && concrete.spec_gpu_len() <= u64::MAX)
                },
            },
    {
        let tex = match self.describe_reg(register).as_texture() {
            Ok(desc) => *desc,
            Err(e) => {
                return Err(e);
            },
        };
        let concrete = match tex.as_concrete() {
            Some(concrete) => concrete,
            None => {
                return Err(CommandError::other());
            },
        };
        let len = match concrete.u64_gpu_len() {
            Some(len) => len,
            None => {
                return Err(CommandError::other());
            },
        };
        let op = Op::BufferUnary {
            src: register,
            op: BufferUnaryOp::FromImage {  },
            desc: GenericBuffer { size: Generic::Concrete(len) },
        };
        let ghost op_spec = op;
        let ghost prior = *self;
        let reg = self.push(op);
        proof {
            lemma_desc_at_push(prior.ops@, op_spec);
            self.lemma_builder_push(prior, op_spec);
        }
        Ok(reg)
    }

    /// Construct a buffer by overlaying one on top of another at a fixed
    /// location. The output is sized by the underlying buffer; overflowing
    /// data is discarded.
    ///
    /// Accepted exactly when both registers hold byte buffers.
    pub fn buffer_overlay(&mut self, under: Register, at: u64, over: Register) -> (r: Result<
        Register,
        CommandError,
    >)
        requires
            old(self).wf(),
        ensures
            final(self).wf(),
            final(self).spec_same_tables(*old(self)),
            match r {
                Ok(reg) => {
                    &&& buffer_desc_at(old(self).ops@, under.0 as int) matches Some(buf)
                        && buffer_desc_at(old(self).ops@, over.0 as int) is Some && final(self).ops@ == old(self).ops@.push(
                        Op::BufferBinary {
                            lhs: under,
                            rhs: over,
                            op: BufferBinaryOp::Overlay { at },
                            desc: GenericBuffer { size: buf.size },
                        },
                    )
                    &&& reg.0 == old(self).ops@.len()
                },
                Err(e) => {
                    &&& !(buffer_desc_at(old(self).ops@, under.0 as int) is Some && buffer_desc_at(
                        old(self).ops@,
                        over.0 as int,
                    ) is Some)
                    &&& e.inner is Other
                    &&& final(self).spec_unchanged(*old(self))
                },
            },
    {
        let buf = match self.describe_reg(under).as_buffer() {
            Ok(buf) => *buf,
            Err(e) => {
                return Err(e);
            },
        };
        match self.describe_reg(over).as_buffer() {
            Ok(_) => {},
            Err(e) => {
                return Err(e);
            },
        };
        let op = Op::BufferBinary {
            lhs: under,
            rhs: over,
            op: BufferBinaryOp::Overlay { at },
            desc: GenericBuffer { size: buf.size },
        };
        let ghost op_spec = op;
        let ghost prior = *self;
        let reg = self.push(op);
        proof {
            lemma_desc_at_push(prior.ops@, op_spec);
            assert(op_wf(
                prior.ops@,
                under.0 as int,
                prior.vars@.len() as int,
                prior.symbols@.len() as int,
            ));
            self.lemma_builder_push(prior, op_spec);
        }
        Ok(reg)
    }

    /// Construct an image from a buffer already in device memory.
    ///
    /// The buffer must describe the image as it lies in the encoded
    /// transfer memory of the device: each row padded and aligned. Accepted
    /// exactly when the register holds a buffer of known size at least the
    /// padded size of the descriptor.
    pub fn from_buffer(&mut self, buffer_reg: Register, descriptor: Descriptor) -> (r: Result<
        Register,
        CommandError,
    >)
        requires
            old(self).wf(),
        ensures
            final(self).wf(),
            final(self).spec_same_tables(*old(self)),
            match r {
                Ok(reg) => {
                    &&& buffer_desc_at(old(self).ops@, buffer_reg.0 as int) matches Some(buf)
                        && buf.size matches Generic::Concrete(sz) && descriptor.spec_gpu_len()
                        <= u64::MAX && descriptor.spec_gpu_len() <= sz
                    &&& final(self).ops@ == old(self).ops@.push(
                        Op::Construct {
                            desc: GenericDescriptor::spec_of_descriptor(descriptor),
                            op: ConstructOp::FromBuffer(buffer_reg),
                        },
                    )
                    &&& reg.0 == old(self).ops@.len()
                },
                Err(e) => {
                    &&& final(self).spec_unchanged(*old(self))
                    &&& match buffer_desc_at(old(self).ops@, buffer_reg.0 as int) {
                        None => e.inner is GenericTypeError,
                        Some(buf) => {
                            if descriptor.spec_gpu_len() > u64::MAX {
                                e.inner is Other
                            } else {
                                match buf.size {
                                    Generic::Concrete(sz) => descriptor.spec_gpu_len() > sz
                                        && e.inner is Other,
                                    Generic::Generic(_) => e.inner is Unimplemented,
                                }
                            }
                        },
                    }
                },
            },
    {
        let buffer = match self.describe_reg(buffer_reg) {
            RegisterDescription::Buffer(buf) => *buf,
            _ => {
                return Err(CommandError::type_err());
            },
        };
        let gpu_layout = match descriptor.to_aligned() {
            Some(layout) => layout,
            None => {
                return Err(CommandError::other());
            },
        };
        let required_size = (gpu_layout.height as u64) * gpu_layout.row_stride;
        match buffer.size {
            Generic::Concrete(sz) => {
                if sz < required_size {
                    return Err(CommandError::other());
                }
            },
            Generic::Generic(_) => {
                return Err(CommandError::unimplemented());
            },
        }
        let op = Op::Construct {
            desc: GenericDescriptor::of_descriptor(&descriptor),
            op: ConstructOp::FromBuffer(buffer_reg),
        };
        let ghost op_spec = op;
        let ghost prior = *self;
        let reg = self.push(op);
        proof {
            lemma_desc_at_push(prior.ops@, op_spec);
            self.lemma_builder_push(prior, op_spec);
        }
        Ok(reg)
    }
}

/// Copy a byte slice.
pub(crate) fn copy_bytes(bytes: &[u8]) -> (r: Vec<u8>)
    ensures
        r@ == bytes@,
{
    let mut out: Vec<u8> = Vec::new();
    let mut i: usize = 0;
    while i < bytes.len()
        invariant
            i <= bytes@.len(),
            out@ == bytes@.take(i as int),
        decreases bytes@.len() - i,
    {
        out.push(bytes[i]);
        proof {
            assert(bytes@.take(i + 1) =~= bytes@.take(i as int).push(bytes@[i as int]));
        }
        i = i + 1;
    }
    proof {
        assert(bytes@.take(bytes@.len() as int) =~= bytes@);
    }
    out
}


/// Whether a transmutation between the two chroma assignments provably
/// reinterprets the same number of bytes: both concrete with equal texel
/// widths, or both the exact same generic parameter.
pub open spec fn spec_can_transmute(
    source: Generic<(Texel, Color)>,
    target: Generic<(Texel, Color)>,
) -> bool {
    match (source, target) {
        (Generic::Generic(v0), Generic::Generic(v1)) => v0 == v1,
        (Generic::Concrete((t0, _)), Generic::Concrete((t1, _))) => t0.spec_bytes()
            == t1.spec_bytes(),
        _ => false,
    }
}

impl CommandBuffer {
    /// Reinterpret the bytes of an image as another type.
    ///
    /// The texel of the register and of the target descriptor must have the
    /// same byte width; the dimensions must agree.
    pub fn transmute(&mut self, src: Register, target: Descriptor) -> (r: Result<
        Register,
        CommandError,
    >)
        requires
            old(self).wf(),
        ensures
            final(self).wf(),
            final(self).spec_same_tables(*old(self)),
            match r {
                Ok(reg) => {
                    &&& texture_desc_at(old(self).ops@, src.0 as int) matches Some(source)
                        && source.size == GenericDescriptor::spec_of_descriptor(target).size
                        && spec_can_transmute(
                        source.chroma,
                        GenericDescriptor::spec_of_descriptor(target).chroma,
                    )
                    &&& final(self).ops@ == old(self).ops@.push(
                        Op::Unary {
                            src,
                            op: UnaryOp::Transmute,
                            desc: GenericDescriptor::spec_of_descriptor(target),
                        },
                    )
                    &&& reg.0 == old(self).ops@.len()
                },
                Err(e) => {
                    &&& final(self).spec_unchanged(*old(self))
                    &&& match texture_desc_at(old(self).ops@, src.0 as int) {
                        None => e.inner is Other,
                        Some(source) => {
                            let into = GenericDescriptor::spec_of_descriptor(target);
                            if source.size != into.size {
                                e.inner is BadDescriptor
                            } else if !spec_can_transmute(source.chroma, into.chroma) {
                                match source.chroma {
                                    Generic::Concrete(_) => e.inner is BadDescriptor,
                                    Generic::Generic(_) => e.inner is ConflictingTypes,
                                }
                            } else {
                                false
                            }
                        },
                    }
                },
            },
    {
        self.transmute_generic(src, GenericDescriptor::of_descriptor(&target))
    }

    /// Reinterpret the bytes of an image as another type.
    ///
    /// Like [`Self::transmute`] except the target can be generic. It must
    /// be provable that the texels contain the same number of bytes and
    /// align in their storage layout, which requires both texel types to be
    /// concrete or to be the exact same generic.
    pub fn transmute_generic(&mut self, src: Register, into: GenericDescriptor) -> (r: Result<
        Register,
        CommandError,
    >)
        requires
            old(self).wf(),
        ensures
            final(self).wf(),
            final(self).spec_same_tables(*old(self)),
            match r {
                Ok(reg) => {
                    &&& texture_desc_at(old(self).ops@, src.0 as int) matches Some(source)
                        && source.size == into.size && spec_can_transmute(
                        source.chroma,
                        into.chroma,
                    )
                    &&& final(self).ops@ == old(self).ops@.push(
                        Op::Unary { src, op: UnaryOp::Transmute, desc: into },
                    )
                    &&& reg.0 == old(self).ops@.len()
                },
                Err(e) => {
                    &&& final(self).spec_unchanged(*old(self))
                    &&& match texture_desc_at(old(self).ops@, src.0 as int) {
                        None => e.inner is Other,
                        Some(source) => {
                            if source.size != into.size {
                                e.inner is BadDescriptor
                            } else if !spec_can_transmute(source.chroma, into.chroma) {
                                match (source.chroma, into.chroma) {
                                    (
                                        Generic::Concrete(_),
                                        Generic::Concrete(_),
                                    ) => e.inner is BadDescriptor,
                                    _ => e.inner is ConflictingTypes,
                                }
                            } else {
                                false
                            }
                        },
                    }
                },
            },
    {
        let source = match self.describe_reg(src).as_texture() {
            Ok(desc) => *desc,
            Err(e) => {
                return Err(e);
            },
        };
        let size_matches = match (source.size, into.size) {
            (Generic::Concrete((w0, h0)), Generic::Concrete((w1, h1))) => w0 == w1 && h0 == h1,
            (Generic::Generic(v0), Generic::Generic(v1)) => v0.0 == v1.0,
            _ => false,
        };
        if !size_matches {
            return Err(CommandError { inner: CommandErrorKind::BadDescriptor(into) });
        }
        let can = match (source.chroma, into.chroma) {
            (Generic::Generic(v0), Generic::Generic(v1)) => v0.0 == v1.0,
            (Generic::Concrete((t0, _)), Generic::Concrete((t1, _))) => t0.bits.bytes()
                == t1.bits.bytes(),
            _ => false,
        };
        if !can {
            let both_concrete = match (source.chroma, into.chroma) {
                (Generic::Concrete(_), Generic::Concrete(_)) => true,
                _ => false,
            };
            if both_concrete {
                return Err(CommandError { inner: CommandErrorKind::BadDescriptor(into) });
            }
            return Err(CommandError { inner: CommandErrorKind::ConflictingTypes(source, into) });
        }
        let op = Op::Unary { src, op: UnaryOp::Transmute, desc: into };
        let ghost op_spec = op;
        let ghost prior = *self;
        let reg = self.push(op);
        proof {
            lemma_desc_at_push(prior.ops@, op_spec);
            lemma_texture_desc_wf(
                prior.ops@,
                src.0 as int,
                prior.vars@.len() as int,
                prior.symbols@.len() as int,
            );
            self.lemma_builder_push(prior, op_spec);
        }
        Ok(reg)
    }

    /// Embed an image as part of a larger one.
    ///
    /// Both images must agree in chroma; the placement must equal the full
    /// extent of the embedded image, and — where the background is concrete
    /// — lie inside the background.
    pub fn inscribe(&mut self, below: Register, rect: Rectangle, above: Register) -> (r: Result<
        Register,
        CommandError,
    >)
        requires
            old(self).wf(),
        ensures
            final(self).wf(),
            final(self).spec_same_tables(*old(self)),
            match r {
                Ok(reg) => {
                    &&& texture_desc_at(old(self).ops@, below.0 as int) matches Some(desc_below)
                        && texture_desc_at(old(self).ops@, above.0 as int) matches Some(desc_above)
                        && {
                        &&& desc_below.chroma == desc_above.chroma
                        &&& desc_above.spec_as_concrete() matches Some(above_concrete)
                            && rect.spec_width() == above_concrete.layout.width
                            && rect.spec_height() == above_concrete.layout.height
                        &&& (desc_below.spec_as_concrete() matches Some(below_concrete) ==> (
                        Rectangle {
                            x: 0,
                            y: 0,
                            max_x: below_concrete.layout.width,
                            max_y: below_concrete.layout.height,
                        }).spec_contains(rect))
                        &&& final(self).ops@ == old(self).ops@.push(
                            Op::Binary {
                                lhs: below,
                                rhs: above,
                                op: BinaryOp::Inscribe { placement: rect.normalize_spec() },
                                desc: desc_below,
                            },
                        )
                    }
                    &&& reg.0 == old(self).ops@.len()
                },
                Err(_) => {
                    &&& !spec_inscribe_accepted(old(self).ops@, below, rect, above)
                    &&& final(self).spec_unchanged(*old(self))
                },
            },
    {
        let desc_below = match self.describe_reg(below).as_texture() {
            Ok(desc) => *desc,
            Err(e) => {
                return Err(e);
            },
        };
        let desc_above = match self.describe_reg(above).as_texture() {
            Ok(desc) => *desc,
            Err(e) => {
                return Err(e);
            },
        };
        let chroma_eq = match (desc_below.chroma, desc_above.chroma) {
            (Generic::Concrete((t0, c0)), Generic::Concrete((t1, c1))) => t0 == t1 && c0 == c1,
            (Generic::Generic(v0), Generic::Generic(v1)) => v0.0 == v1.0,
            _ => false,
        };
        if !chroma_eq {
            return Err(
                CommandError { inner: CommandErrorKind::ConflictingTypes(desc_below, desc_above) },
            );
        }
        let above_concrete = match desc_above.as_concrete() {
            Some(concrete) => concrete,
            None => {
                return Err(CommandError { inner: CommandErrorKind::ConcreteDescriptorRequired });
            },
        };
        // The placement must hold exactly the embedded image: same size,
        // any offset.
        if !(rect.width() == above_concrete.layout.width && rect.height()
            == above_concrete.layout.height) {
            return Err(CommandError::other());
        }
        // Painting outside the background would merely paint less; the
        // check keeps the declared placement meaningful.
        if let Some(below_concrete) = desc_below.as_concrete() {
            let frame = Rectangle::with_width_height(
                below_concrete.layout.width,
                below_concrete.layout.height,
            );
            if !frame.contains(rect) {
                return Err(CommandError::other());
            }
        }
        let op = Op::Binary {
            lhs: below,
            rhs: above,
            op: BinaryOp::Inscribe { placement: rect.normalize() },
            desc: desc_below,
        };
        let ghost op_spec = op;
        let ghost prior = *self;
        let reg = self.push(op);
        proof {
            lemma_desc_at_push(prior.ops@, op_spec);
            lemma_texture_desc_wf(
                prior.ops@,
                below.0 as int,
                prior.vars@.len() as int,
                prior.symbols@.len() as int,
            );
            self.lemma_builder_push(prior, op_spec);
        }
        Ok(reg)
    }

    /// Extract one channel of an image into a new single-channel view.
    ///
    /// Accepted exactly when the source is a concrete texture whose texel
    /// can give up the channel on its own, and the channel has a position
    /// in the linear representation.
    pub fn extract(&mut self, src: Register, channel: ColorChannel) -> (r: Result<
        Register,
        CommandError,
    >)
        requires
            old(self).wf(),
        ensures
            final(self).wf(),
            final(self).spec_same_tables(*old(self)),
            match r {
                Ok(reg) => {
                    &&& texture_desc_at(old(self).ops@, src.0 as int) matches Some(desc)
                        && desc.spec_as_concrete() matches Some(concrete)
                        && concrete.texel.spec_channel_texel(channel) matches Some(channel_texel)
                        && final(self).ops@ == old(self).ops@.push(
                        Op::Unary {
                            src,
                            op: UnaryOp::Extract {
                                channel: match channel {
                                    ColorChannel::R => ChannelPosition::First,
                                    ColorChannel::G => ChannelPosition::Second,
                                    _ => ChannelPosition::Third,
                                },
                            },
                            desc: GenericDescriptor {
                                size: Generic::Concrete(
                                    (concrete.layout.width, concrete.layout.height),
                                ),
                                chroma: Generic::Concrete((channel_texel, concrete.color)),
                            },
                        },
                    )
                    &&& (channel is R || channel is G || channel is B)
                    &&& reg.0 == old(self).ops@.len()
                },
                Err(_) => {
                    &&& !spec_extract_accepted(old(self).ops@, src, channel)
                    &&& final(self).spec_unchanged(*old(self))
                },
            },
    {
        let desc = match self.describe_reg(src).as_texture() {
            Ok(desc) => *desc,
            Err(e) => {
                return Err(e);
            },
        };
        let concrete = match desc.as_concrete() {
            Some(concrete) => concrete,
            None => {
                return Err(CommandError { inner: CommandErrorKind::ConcreteDescriptorRequired });
            },
        };
        let texel = match concrete.texel.channel_texel(channel) {
            Some(texel) => texel,
            None => {
                return Err(CommandError::other());
            },
        };
        // The position of the channel in the linear representation; colors
        // may lack a stable position for some channels.
        let position = match ChannelPosition::new(channel) {
            Some(position) => position,
            None => {
                return Err(CommandError::other());
            },
        };
        let op = Op::Unary {
            src,
            op: UnaryOp::Extract { channel: position },
            desc: GenericDescriptor {
                size: Generic::Concrete((concrete.layout.width, concrete.layout.height)),
                chroma: Generic::Concrete((texel, concrete.color)),
            },
        };
        let ghost op_spec = op;
        let ghost prior = *self;
        let reg = self.push(op);
        proof {
            lemma_desc_at_push(prior.ops@, op_spec);
            self.lemma_builder_push(prior, op_spec);
        }
        Ok(reg)
    }
}


impl CommandBuffer {
    /// Overwrite one channel of an image with overlaid data.
    ///
    /// The overlaid image provides its single channel as if by
    /// transmutation: only the sample parts are reinterpreted. Both chroma
    /// must be concrete; the overlay must hold exactly the one channel, at
    /// the same sample width and color as the background expects.
    pub fn inject(&mut self, below: Register, channel: ColorChannel, above: Register) -> (r: Result<
        Register,
        CommandError,
    >)
        requires
            old(self).wf(),
        ensures
            final(self).wf(),
            final(self).spec_same_tables(*old(self)),
            match r {
                Ok(reg) => {
                    &&& texture_desc_at(old(self).ops@, below.0 as int) matches Some(desc_below)
                        && texture_desc_at(old(self).ops@, above.0 as int) matches Some(desc_above)
                        && desc_below.chroma matches Generic::Concrete((below_texel, below_color))
                        && desc_above.chroma matches Generic::Concrete((above_texel, above_color))
                        && below_texel.spec_channel_texel(channel) matches Some(expected) && {
                        &&& above_texel.parts.spec_num_components()
                            == expected.parts.spec_num_components()
                        &&& above_texel.spec_channel_weight_vec4() is Some
                        &&& expected.bits == above_texel.bits
                        &&& below_color == above_color
                        &&& (channel is R || channel is G || channel is B)
                        &&& final(self).ops@ == old(self).ops@.push(
                            Op::Binary {
                                lhs: below,
                                rhs: above,
                                op: BinaryOp::Inject {
                                    channel: match channel {
                                        ColorChannel::R => ChannelPosition::First,
                                        ColorChannel::G => ChannelPosition::Second,
                                        _ => ChannelPosition::Third,
                                    },
                                    from_channels: above_texel,
                                },
                                desc: desc_below,
                            },
                        )
                    }
                    &&& reg.0 == old(self).ops@.len()
                },
                Err(_) => {
                    &&& !spec_inject_accepted(old(self).ops@, below, channel, above)
                    &&& final(self).spec_unchanged(*old(self))
                },
            },
    {
        let desc_below = match self.describe_reg(below).as_texture() {
            Ok(desc) => *desc,
            Err(e) => {
                return Err(e);
            },
        };
        let desc_above = match self.describe_reg(above).as_texture() {
            Ok(desc) => *desc,
            Err(e) => {
                return Err(e);
            },
        };
        let (below_texel, below_color) = match desc_below.chroma {
            Generic::Concrete(chroma) => chroma,
            Generic::Generic(_) => {
                return Err(CommandError { inner: CommandErrorKind::BadDescriptor(desc_below) });
            },
        };
        let (above_texel, above_color) = match desc_above.chroma {
            Generic::Concrete(chroma) => chroma,
            Generic::Generic(_) => {
                return Err(CommandError { inner: CommandErrorKind::BadDescriptor(desc_above) });
            },
        };
        let expected_texel = match below_texel.channel_texel(channel) {
            Some(texel) => texel,
            None => {
                return Err(CommandError::other());
            },
        };
        if above_texel.parts.num_components() != expected_texel.parts.num_components() {
            let wanted = desc_below.with_chroma(expected_texel, below_color);
            return Err(
                CommandError { inner: CommandErrorKind::ConflictingTypes(wanted, desc_above) },
            );
        }
        let from_channels = above_texel;
        // Override the sample part interpretation for the comparison: the
        // operation changes specifically the parts, everything else must
        // agree.
        let retyped = Texel { bits: above_texel.bits, parts: expected_texel.parts };
        if from_channels.channel_weight_vec4().is_none() {
            return Err(CommandError::other());
        }
        if !(expected_texel == retyped && below_color == above_color) {
            let wanted = desc_below.with_chroma(expected_texel, below_color);
            return Err(
                CommandError { inner: CommandErrorKind::ConflictingTypes(wanted, desc_above) },
            );
        }
        let position = match ChannelPosition::new(channel) {
            Some(position) => position,
            None => {
                return Err(CommandError::other());
            },
        };
        let op = Op::Binary {
            lhs: below,
            rhs: above,
            op: BinaryOp::Inject { channel: position, from_channels },
            desc: desc_below,
        };
        let ghost op_spec = op;
        let ghost prior = *self;
        let reg = self.push(op);
        proof {
            lemma_desc_at_push(prior.ops@, op_spec);
            lemma_texture_desc_wf(
                prior.ops@,
                below.0 as int,
                prior.vars@.len() as int,
                prior.symbols@.len() as int,
            );
            self.lemma_builder_push(prior, op_spec);
        }
        Ok(reg)
    }

    /// Grab colors from a palette image at coordinates read from an image
    /// of indices.
    ///
    /// Accepted exactly when both registers hold textures and each selected
    /// coordinate channel has a position in the linear representation.
    pub fn palette(&mut self, palette: Register, config: Palette, indices: Register) -> (r: Result<
        Register,
        CommandError,
    >)
        requires
            old(self).wf(),
        ensures
            final(self).wf(),
            final(self).spec_same_tables(*old(self)),
            match r {
                Ok(reg) => {
                    &&& texture_desc_at(old(self).ops@, palette.0 as int) matches Some(color_desc)
                        && texture_desc_at(old(self).ops@, indices.0 as int) matches Some(idx_desc)
                        && final(self).ops@ == old(self).ops@.push(
                        Op::Binary {
                            lhs: palette,
                            rhs: indices,
                            op: BinaryOp::Palette(
                                crate::shaders::palette::Shader {
                                    data: crate::shaders::palette::ShaderData {
                                        x_coord: spec_coord_vec(config.width),
                                        y_coord: spec_coord_vec(config.height),
                                        base_x: config.width_base,
                                        base_y: config.height_base,
                                    },
                                },
                            ),
                            desc: GenericDescriptor {
                                size: idx_desc.size,
                                chroma: color_desc.chroma,
                            },
                        },
                    )
                    &&& reg.0 == old(self).ops@.len()
                },
                Err(e) => {
                    &&& !spec_palette_accepted(old(self).ops@, palette, config, indices)
                    &&& final(self).spec_unchanged(*old(self))
                    &&& match (
                        texture_desc_at(old(self).ops@, palette.0 as int),
                        texture_desc_at(old(self).ops@, indices.0 as int),
                    ) {
                        (Some(_), Some(_)) => e.inner is GenericTypeError,
                        _ => e.inner is Other,
                    }
                },
            },
    {
        let color_desc = match self.describe_reg(palette).as_texture() {
            Ok(desc) => *desc,
            Err(e) => {
                return Err(e);
            },
        };
        let idx_desc = match self.describe_reg(indices).as_texture() {
            Ok(desc) => *desc,
            Err(e) => {
                return Err(e);
            },
        };
        let x_coord = match config.width {
            Some(coord) => match ChannelPosition::new(coord) {
                Some(pos) => pos.into_vec4(),
                None => {
                    return Err(CommandError::type_err());
                },
            },
            None => [0, 0, 0, 0],
        };
        let y_coord = match config.height {
            Some(coord) => match ChannelPosition::new(coord) {
                Some(pos) => pos.into_vec4(),
                None => {
                    return Err(CommandError::type_err());
                },
            },
            None => [0, 0, 0, 0],
        };
        proof {
            assert(x_coord =~= spec_coord_vec(config.width));
            assert(y_coord =~= spec_coord_vec(config.height));
        }
        let op = Op::Binary {
            lhs: palette,
            rhs: indices,
            op: BinaryOp::Palette(
                crate::shaders::palette::Shader {
                    data: crate::shaders::palette::ShaderData {
                        x_coord,
                        y_coord,
                        base_x: config.width_base,
                        base_y: config.height_base,
                    },
                },
            ),
            desc: GenericDescriptor { size: idx_desc.size, chroma: color_desc.chroma },
        };
        let ghost op_spec = op;
        let ghost prior = *self;
        let reg = self.push(op);
        proof {
            lemma_desc_at_push(prior.ops@, op_spec);
            lemma_texture_desc_wf(
                prior.ops@,
                palette.0 as int,
                prior.vars@.len() as int,
                prior.symbols@.len() as int,
            );
            lemma_texture_desc_wf(
                prior.ops@,
                indices.0 as int,
                prior.vars@.len() as int,
                prior.symbols@.len() as int,
            );
            self.lemma_builder_push(prior, op_spec);
        }
        Ok(reg)
    }

    /// Overlay an affine transformation of an image onto another.
    ///
    /// Both images must agree in chroma; the transformation must have a
    /// determinant of at least the machine epsilon in magnitude; bilinear
    /// sampling is recognized but not implemented.
    pub fn affine(&mut self, below: Register, affine: Affine, above: Register) -> (r: Result<
        Register,
        CommandError,
    >)
        requires
            old(self).wf(),
        ensures
            final(self).wf(),
            final(self).spec_same_tables(*old(self)),
            match r {
                Ok(reg) => {
                    &&& texture_desc_at(old(self).ops@, below.0 as int) matches Some(lhs)
                        && texture_desc_at(old(self).ops@, above.0 as int) matches Some(rhs) && {
                        &&& lhs.chroma == rhs.chroma
                        &&& crate::fp32::le_bits(
                            crate::fp32::F32_EPSILON,
                            crate::fp32::abs_bits(RowMatrix(affine.transformation).det_spec()),
                        )
                        &&& affine.sampling is Nearest
                        &&& final(self).ops@ == old(self).ops@.push(
                            Op::Binary {
                                lhs: below,
                                rhs: above,
                                op: BinaryOp::Affine(affine),
                                desc: lhs,
                            },
                        )
                    }
                    &&& reg.0 == old(self).ops@.len()
                },
                Err(e) => {
                    &&& !spec_affine_accepted(old(self).ops@, below, affine, above)
                    &&& final(self).spec_unchanged(*old(self))
                    &&& match (
                        texture_desc_at(old(self).ops@, below.0 as int),
                        texture_desc_at(old(self).ops@, above.0 as int),
                    ) {
                        (Some(lhs), Some(rhs)) => {
                            if lhs.chroma != rhs.chroma {
                                e.inner is GenericTypeError
                            } else if !crate::fp32::le_bits(
                                crate::fp32::F32_EPSILON,
                                crate::fp32::abs_bits(RowMatrix(affine.transformation).det_spec()),
                            ) {
                                e.inner is Other
                            } else {
                                affine.sampling is BiLinear && e.inner is Unimplemented
                            }
                        },
                        _ => e.inner is Other,
                    }
                },
            },
    {
        let lhs = match self.describe_reg(below).as_texture() {
            Ok(desc) => *desc,
            Err(e) => {
                return Err(e);
            },
        };
        let rhs = match self.describe_reg(above).as_texture() {
            Ok(desc) => *desc,
            Err(e) => {
                return Err(e);
            },
        };
        let chroma_eq = match (lhs.chroma, rhs.chroma) {
            (Generic::Concrete((t0, c0)), Generic::Concrete((t1, c1))) => t0 == t1 && c0 == c1,
            (Generic::Generic(v0), Generic::Generic(v1)) => v0.0 == v1.0,
            _ => false,
        };
        if !chroma_eq {
            return Err(CommandError::type_err());
        }
        let matrix = RowMatrix::new(affine.transformation);
        if !matrix.det_at_least_epsilon() {
            return Err(CommandError::other());
        }
        match affine.sampling {
            AffineSample::Nearest => {},
            AffineSample::BiLinear => {
                // Bilinear sampling happens in linear RGB on the device;
                // accepting it takes a check for a linear-light color.
                return Err(CommandError::unimplemented());
            },
        }
        let op = Op::Binary { lhs: below, rhs: above, op: BinaryOp::Affine(affine), desc: lhs };
        let ghost op_spec = op;
        let ghost prior = *self;
        let reg = self.push(op);
        proof {
            lemma_desc_at_push(prior.ops@, op_spec);
            lemma_texture_desc_wf(
                prior.ops@,
                below.0 as int,
                prior.vars@.len() as int,
                prior.symbols@.len() as int,
            );
            self.lemma_builder_push(prior, op_spec);
        }
        Ok(reg)
    }
}

/// The one-hot coordinate selector of an optional color channel: zero when
/// no channel drives the coordinate.
pub open spec fn spec_coord_vec(channel: Option<ColorChannel>) -> [u32; 4] {
    match channel {
        Some(ColorChannel::R) => [crate::fp32::F32_ONE, 0u32, 0u32, 0u32],
        Some(ColorChannel::G) => [0u32, crate::fp32::F32_ONE, 0u32, 0u32],
        Some(ColorChannel::B) => [0u32, 0u32, crate::fp32::F32_ONE, 0u32],
        _ => [0u32, 0u32, 0u32, 0u32],
    }
}


/// When `inscribe` accepts its operands.
pub open spec fn spec_inscribe_accepted(
    ops: Seq<Op>,
    below: Register,
    rect: Rectangle,
    above: Register,
) -> bool {
    &&& texture_desc_at(ops, below.0 as int) matches Some(desc_below)
        && texture_desc_at(ops, above.0 as int) matches Some(desc_above) && {
        &&& desc_below.chroma == desc_above.chroma
        &&& desc_above.spec_as_concrete() matches Some(above_concrete)
            && rect.spec_width() == above_concrete.layout.width && rect.spec_height()
            == above_concrete.layout.height
        &&& (desc_below.spec_as_concrete() matches Some(below_concrete) ==> (Rectangle {
            x: 0,
            y: 0,
            max_x: below_concrete.layout.width,
            max_y: below_concrete.layout.height,
        }).spec_contains(rect))
    }
}

/// When `extract` accepts its operands.
pub open spec fn spec_extract_accepted(ops: Seq<Op>, src: Register, channel: ColorChannel) -> bool {
    &&& texture_desc_at(ops, src.0 as int) matches Some(desc) && desc.spec_as_concrete() matches Some(
        concrete,
    ) && concrete.texel.spec_channel_texel(channel) is Some
    &&& (channel is R || channel is G || channel is B)
}

/// When `inject` accepts its operands.
pub open spec fn spec_inject_accepted(
    ops: Seq<Op>,
    below: Register,
    channel: ColorChannel,
    above: Register,
) -> bool {
    &&& texture_desc_at(ops, below.0 as int) matches Some(desc_below) && texture_desc_at(
        ops,
        above.0 as int,
    ) matches Some(desc_above) && desc_below.chroma matches Generic::Concrete(
        (below_texel, below_color),
    ) && desc_above.chroma matches Generic::Concrete((above_texel, above_color))
        && below_texel.spec_channel_texel(channel) matches Some(expected) && {
        &&& above_texel.parts.spec_num_components() == expected.parts.spec_num_components()
        &&& above_texel.spec_channel_weight_vec4() is Some
        &&& expected.bits == above_texel.bits
        &&& below_color == above_color
        &&& (channel is R || channel is G || channel is B)
    }
}

/// When `palette` accepts its operands.
pub open spec fn spec_palette_accepted(
    ops: Seq<Op>,
    palette: Register,
    config: Palette,
    indices: Register,
) -> bool {
    &&& texture_desc_at(ops, palette.0 as int) is Some
    &&& texture_desc_at(ops, indices.0 as int) is Some
    &&& match config.width {
        Some(ch) => ch is R || ch is G || ch is B,
        None => true,
    }
    &&& match config.height {
        Some(ch) => ch is R || ch is G || ch is B,
        None => true,
    }
}

/// When `affine` accepts its operands.
pub open spec fn spec_affine_accepted(
    ops: Seq<Op>,
    below: Register,
    affine: Affine,
    above: Register,
) -> bool {
    &&& texture_desc_at(ops, below.0 as int) matches Some(lhs) && texture_desc_at(
        ops,
        above.0 as int,
    ) matches Some(rhs) && lhs.chroma == rhs.chroma
    &&& crate::fp32::le_bits(
        crate::fp32::F32_EPSILON,
        crate::fp32::abs_bits(RowMatrix(affine.transformation).det_spec()),
    )
    &&& affine.sampling is Nearest
}


/// The conversion selected for a pair of colors: conversions through XYZ
/// for same-whitepoint RGB pairs, through D65 for Oklab, and through the
/// target whitepoint for SrLab2; anything else is unhandled.
pub open spec fn spec_conversion_of(src: Color, dst: Color) -> Option<ColorConversion> {
    match (src, dst) {
        (
            Color::Rgb { primary: p0, whitepoint: w0, .. },
            Color::Rgb { primary: p1, whitepoint: w1, .. },
        ) => {
            if w0 == w1 {
                Some(
                    ColorConversion::Xyz {
                        from_xyz_matrix: RowMatrix(rgb_to_xyz_matrix(p0, w0)),
                        to_xyz_matrix: RowMatrix(rgb_to_xyz_matrix(p1, w1)),
                    },
                )
            } else {
                None
            }
        },
        (Color::Rgb { primary, whitepoint, .. }, Color::Oklab) => {
            if whitepoint == Illuminant::D65 {
                Some(
                    ColorConversion::XyzToOklab {
                        to_xyz_matrix: RowMatrix(rgb_to_xyz_matrix(primary, Illuminant::D65)),
                    },
                )
            } else {
                None
            }
        },
        (Color::Oklab, Color::Rgb { primary, whitepoint, .. }) => {
            if whitepoint == Illuminant::D65 {
                Some(
                    ColorConversion::OklabToXyz {
                        from_xyz_matrix: RowMatrix(rgb_to_xyz_matrix(primary, Illuminant::D65)),
                    },
                )
            } else {
                None
            }
        },
        (Color::Rgb { primary, whitepoint, .. }, Color::SrLab2 { whitepoint: target }) => Some(
            ColorConversion::XyzToSrLab2 {
                to_xyz_matrix: RowMatrix(rgb_to_xyz_matrix(primary, whitepoint)),
                whitepoint: target,
            },
        ),
        (Color::SrLab2 { whitepoint: source }, Color::Rgb { primary, whitepoint, .. }) => Some(
            ColorConversion::SrLab2ToXyz {
                from_xyz_matrix: RowMatrix(rgb_to_xyz_matrix(primary, whitepoint)),
                whitepoint: source,
            },
        ),
        _ => None,
    }
}

/// When `chromatic_adaptation` accepts its source: a texture with a
/// concrete, RGB-ish descriptor.
pub open spec fn spec_adaptation_input_accepted(ops: Seq<Op>, src: Register) -> bool {
    texture_desc_at(ops, src.0 as int) matches Some(desc) && desc.spec_as_concrete() matches Some(
        concrete,
    ) && concrete.color is Rgb
}

impl CommandBuffer {
    /// Create an image with a different color encoding.
    ///
    /// The conversion goes through linear RGB and is selected from the pair
    /// of the source color and the requested color; an unhandled pair is
    /// rejected. The source must have a concrete descriptor.
    pub fn color_convert(&mut self, src: Register, color: Color, texel: Texel) -> (r: Result<
        Register,
        CommandError,
    >)
        requires
            old(self).wf(),
        ensures
            final(self).wf(),
            final(self).spec_same_tables(*old(self)),
            match r {
                Ok(reg) => {
                    &&& texture_desc_at(old(self).ops@, src.0 as int) matches Some(desc)
                        && desc.spec_as_concrete() matches Some(concrete) && spec_conversion_of(
                        concrete.color,
                        color,
                    ) matches Some(conversion) && final(self).ops@ == old(self).ops@.push(
                        Op::Unary {
                            src,
                            op: UnaryOp::ColorConvert(conversion),
                            desc: GenericDescriptor {
                                size: Generic::Concrete(
                                    (concrete.layout.width, concrete.layout.height),
                                ),
                                chroma: Generic::Concrete((texel, color)),
                            },
                        },
                    )
                    &&& reg.0 == old(self).ops@.len()
                },
                Err(e) => {
                    &&& final(self).spec_unchanged(*old(self))
                    &&& match texture_desc_at(old(self).ops@, src.0 as int) {
                        None => e.inner is Other,
                        Some(desc) => match desc.spec_as_concrete() {
                            None => e.inner is ConcreteDescriptorRequired,
                            Some(concrete) => spec_conversion_of(concrete.color, color) is None
                                && e.inner is BadDescriptor,
                        },
                    }
                },
            },
    {
        let desc_src = match self.describe_reg(src).as_texture() {
            Ok(desc) => *desc,
            Err(e) => {
                return Err(e);
            },
        };
        let concrete = match desc_src.as_concrete() {
            Some(concrete) => concrete,
            None => {
                return Err(CommandError { inner: CommandErrorKind::ConcreteDescriptorRequired });
            },
        };
        // All colors of one whitepoint share the linear RGB working space
        // after decoding, so the conversion is a matrix bracketed by the
        // transfer functions, which the load and store apply.
        let conversion = match (concrete.color, color) {
            (
                Color::Rgb { primary: p0, whitepoint: w0, .. },
                Color::Rgb { primary: p1, whitepoint: w1, .. },
            ) => {
                if w0 == w1 {
                    ColorConversion::Xyz {
                        from_xyz_matrix: RowMatrix::new(rgb_to_xyz(p0, w0)),
                        to_xyz_matrix: RowMatrix::new(rgb_to_xyz(p1, w1)),
                    }
                } else {
                    return Err(CommandError { inner: CommandErrorKind::BadDescriptor(desc_src) });
                }
            },
            (Color::Rgb { primary, whitepoint, .. }, Color::Oklab) => {
                if whitepoint == Illuminant::D65 {
                    ColorConversion::XyzToOklab {
                        to_xyz_matrix: RowMatrix::new(rgb_to_xyz(primary, Illuminant::D65)),
                    }
                } else {
                    return Err(CommandError { inner: CommandErrorKind::BadDescriptor(desc_src) });
                }
            },
            (Color::Oklab, Color::Rgb { primary, whitepoint, .. }) => {
                if whitepoint == Illuminant::D65 {
                    ColorConversion::OklabToXyz {
                        from_xyz_matrix: RowMatrix::new(rgb_to_xyz(primary, Illuminant::D65)),
                    }
                } else {
                    return Err(CommandError { inner: CommandErrorKind::BadDescriptor(desc_src) });
                }
            },
            (Color::Rgb { primary, whitepoint, .. }, Color::SrLab2 { whitepoint: target }) => {
                ColorConversion::XyzToSrLab2 {
                    to_xyz_matrix: RowMatrix::new(rgb_to_xyz(primary, whitepoint)),
                    whitepoint: target,
                }
            },
            (Color::SrLab2 { whitepoint: source }, Color::Rgb { primary, whitepoint, .. }) => {
                ColorConversion::SrLab2ToXyz {
                    from_xyz_matrix: RowMatrix::new(rgb_to_xyz(primary, whitepoint)),
                    whitepoint: source,
                }
            },
            _ => {
                return Err(CommandError { inner: CommandErrorKind::BadDescriptor(desc_src) });
            },
        };
        let op = Op::Unary {
            src,
            op: UnaryOp::ColorConvert(conversion),
            desc: GenericDescriptor {
                size: Generic::Concrete((concrete.layout.width, concrete.layout.height)),
                chroma: Generic::Concrete((texel, color)),
            },
        };
        let ghost op_spec = op;
        let ghost prior = *self;
        let reg = self.push(op);
        proof {
            lemma_desc_at_push(prior.ops@, op_spec);
            self.lemma_builder_push(prior, op_spec);
        }
        Ok(reg)
    }

    /// Perform a whitepoint adaptation.
    ///
    /// The method and target whitepoint describe the chromatic adaptation;
    /// the source must hold a concrete RGB-ish texture.
    pub fn chromatic_adaptation(
        &mut self,
        src: Register,
        method: ChromaticAdaptationMethod,
        target: Illuminant,
    ) -> (r: Result<Register, CommandError>)
        requires
            old(self).wf(),
        ensures
            final(self).wf(),
            final(self).spec_same_tables(*old(self)),
            match r {
                Ok(reg) => {
                    &&& texture_desc_at(old(self).ops@, src.0 as int) matches Some(desc)
                        && desc.spec_as_concrete() matches Some(concrete)
                        && concrete.color matches Color::Rgb {
                        primary,
                        whitepoint,
                        transfer,
                        luminance,
                    } && final(self).ops@ == old(self).ops@.push(
                        Op::Unary {
                            src,
                            op: UnaryOp::ChromaticAdaptation(
                                ChromaticAdaptation {
                                    to_xyz_matrix: RowMatrix(rgb_to_xyz_matrix(primary, whitepoint)),
                                    source: whitepoint,
                                    method,
                                    from_xyz_matrix: RowMatrix(
                                        rgb_to_xyz_matrix(primary, target),
                                    ).inv_spec(),
                                    target,
                                },
                            ),
                            desc: GenericDescriptor {
                                size: Generic::Concrete(
                                    (concrete.layout.width, concrete.layout.height),
                                ),
                                chroma: Generic::Concrete(
                                    (
                                        concrete.texel,
                                        Color::Rgb {
                                            primary,
                                            whitepoint: target,
                                            transfer,
                                            luminance,
                                        },
                                    ),
                                ),
                            },
                        },
                    )
                    &&& reg.0 == old(self).ops@.len()
                },
                Err(e) => {
                    &&& final(self).spec_unchanged(*old(self))
                    &&& match texture_desc_at(old(self).ops@, src.0 as int) {
                        None => e.inner is Other,
                        Some(desc) => match desc.spec_as_concrete() {
                            None => e.inner is ConcreteDescriptorRequired,
                            Some(concrete) => !(concrete.color is Rgb) && e.inner is BadDescriptor,
                        },
                    }
                },
            },
    {
        let desc_src = match self.describe_reg(src).as_texture() {
            Ok(desc) => *desc,
            Err(e) => {
                return Err(e);
            },
        };
        let concrete = match desc_src.as_concrete() {
            Some(concrete) => concrete,
            None => {
                return Err(CommandError { inner: CommandErrorKind::ConcreteDescriptorRequired });
            },
        };
        let (primary, whitepoint, transfer, luminance) = match concrete.color {
            Color::Rgb { primary, whitepoint, transfer, luminance } => (
                primary,
                whitepoint,
                transfer,
                luminance,
            ),
            // Adaptation of the perceptual spaces awaits a reference model.
            _ => {
                return Err(CommandError { inner: CommandErrorKind::BadDescriptor(desc_src) });
            },
        };
        let to_xyz_matrix = RowMatrix::new(rgb_to_xyz(primary, whitepoint));
        let from_xyz_matrix = RowMatrix::new(rgb_to_xyz(primary, target)).inv();
        let texel_color = Color::Rgb { primary, whitepoint: target, transfer, luminance };
        let op = Op::Unary {
            src,
            op: UnaryOp::ChromaticAdaptation(
                ChromaticAdaptation {
                    to_xyz_matrix,
                    source: whitepoint,
                    method,
                    from_xyz_matrix,
                    target,
                },
            ),
            desc: GenericDescriptor {
                size: Generic::Concrete((concrete.layout.width, concrete.layout.height)),
                chroma: Generic::Concrete((concrete.texel, texel_color)),
            },
        };
        let ghost op_spec = op;
        let ghost prior = *self;
        let reg = self.push(op);
        proof {
            lemma_desc_at_push(prior.ops@, op_spec);
            self.lemma_builder_push(prior, op_spec);
        }
        Ok(reg)
    }

    /// Resize an image: construct a coordinate grid of the requested size
    /// and sample the image through it, bilinearly in the grid.
    ///
    /// Accepted exactly when the source holds a texture and the grid layout
    /// is representable.
    pub fn resize(&mut self, below: Register, upper: (u32, u32)) -> (r: Result<
        Register,
        CommandError,
    >)
        requires
            old(self).wf(),
        ensures
            final(self).wf(),
            final(self).spec_same_tables(*old(self)),
            match r {
                Ok(reg) => {
                    &&& texture_desc_at(old(self).ops@, below.0 as int) is Some
                    &&& final(self).ops@.len() == old(self).ops@.len() + 2
                    &&& final(self).ops@.take(old(self).ops@.len() as int) == old(self).ops@
                    &&& final(self).ops@[old(self).ops@.len() as int] matches Op::Construct {
                        desc,
                        op: ConstructOp::Bilinear(shader),
                    } && desc.size == Generic::<(u32, u32)>::Concrete(upper)
                        && shader.data.u_max[0] == crate::fp32::F32_ONE && shader.data.v_max[1]
                        == crate::fp32::F32_ONE
                    &&& final(self).ops@.last() matches Op::Binary {
                        lhs,
                        rhs,
                        op: BinaryOp::Palette(_),
                        desc,
                    } && lhs == below && rhs.0 == old(self).ops@.len() && desc.size
                        == Generic::<(u32, u32)>::Concrete(upper)
                    &&& reg.0 == old(self).ops@.len() + 1
                },
                Err(_) => {
                    &&& final(self).spec_unchanged(*old(self))
                    &&& !(texture_desc_at(old(self).ops@, below.0 as int) is Some && upper.1 * (
                    upper.0 * 4) <= u64::MAX)
                },
            },
    {
        let (width, height) = upper;
        match self.describe_reg(below).as_texture() {
            Ok(_) => {},
            Err(e) => {
                return Err(e);
            },
        };
        let grid_layout = match Descriptor::with_texel(
            Texel::new_u8(SampleParts::RgbA),
            width,
            height,
        ) {
            Some(layout) => layout,
            None => {
                return Err(CommandError::other());
            },
        };
        let one = crate::fp32::F32_ONE;
        let grid = match self.bilinear(
            grid_layout,
            shaders::bilinear::Shader {
                data: shaders::bilinear::ShaderData {
                    u_min: [0, 0, 0, one],
                    v_min: [0, 0, 0, one],
                    uv_min: [0, 0, 0, one],
                    u_max: [one, 0, 0, one],
                    v_max: [0, one, 0, one],
                    uv_max: [0, 0, 0, one],
                },
            },
        ) {
            Ok(grid) => grid,
            Err(e) => {
                return Err(e);
            },
        };
        let result = self.palette(
            below,
            Palette {
                width: Some(ColorChannel::R),
                height: Some(ColorChannel::G),
                width_base: 0,
                height_base: 0,
            },
            grid,
        );
        proof {
            if result is Ok {
                assert(self.ops@.take(old(self).ops@.len() as int) =~= old(self).ops@);
            }
        }
        result
    }
}


/// Schedule one instruction whose parameter block the host replaces on
/// each launch. The wrapper hands the buffer back after one operation.
pub struct WithKnob<'lt> {
    pub inner: &'lt mut CommandBuffer,
}

/// Schedule one instruction whose parameter block is read from a byte
/// buffer register already in device memory.
pub struct WithBuffer<'lt> {
    pub inner: &'lt mut CommandBuffer,
    /// The statically known size of the parameter buffer.
    pub guaranteed_len: u64,
    /// The offset in the buffer where the parameter block starts.
    pub start: u64,
    /// The register supplying the buffer value.
    pub register: Register,
}

/// A register that may be mapped to a knob.
///
/// A knob is the identifier of a region of memory in the linked program,
/// associated with some set of static parameters in that source. The
/// identifiers chosen during linking are discovered by the index and
/// register of the command buffer whose instruction was scheduled through
/// [`WithKnob`] or [`WithBuffer`].
#[derive(Clone, Copy, Debug, PartialEq, Eq, Structural, Hash)]
pub struct RegisterKnob {
    pub link_idx: usize,
    pub register: Register,
}

impl CommandBuffer {
    /// Configure a next, parameterized operation whose parameter structure
    /// can be overridden at runtime.
    pub fn with_knob(&mut self) -> (r: WithKnob<'_>)
        ensures
            *r.inner == *old(self),
            *final(self) == *final(r.inner),
    {
        WithKnob { inner: self }
    }

    /// Like [`Self::with_knob`], but the next parameterized operation reads
    /// its parameter structure from the given byte buffer register instead
    /// of bytes recorded in the command buffer.
    ///
    /// Accepted exactly when the register holds a buffer of concrete size.
    pub fn with_buffer(&mut self, register: Register) -> (r: Result<WithBuffer<'_>, CommandError>)
        ensures
            match r {
                Ok(with) => {
                    &&& buffer_desc_at(old(self).ops@, register.0 as int) matches Some(buf)
                        && buf.size == Generic::<u64>::Concrete(with.guaranteed_len)
                    &&& with.register == register
                    &&& with.start == 0
                    &&& *with.inner == *old(self)
                    &&& *final(self) == *final(with.inner)
                },
                Err(e) => {
                    &&& *final(self) == *old(self)
                    &&& match buffer_desc_at(old(self).ops@, register.0 as int) {
                        None => e.inner is Other,
                        Some(buf) => buf.size is Generic && e.inner
                            is ConcreteDescriptorRequired,
                    }
                },
            },
    {
        let len = {
            let buffer = match self.describe_reg(register).as_buffer() {
                Ok(buf) => *buf,
                Err(e) => {
                    return Err(e);
                },
            };
            match buffer.as_concrete() {
                Some(len) => len,
                None => {
                    return Err(
                        CommandError { inner: CommandErrorKind::ConcreteDescriptorRequired },
                    );
                },
            }
        };
        Ok(WithBuffer { inner: self, guaranteed_len: len, start: 0, register })
    }

    /// Attach a runtime knob to the register just defined.
    fn attach_runtime_knob(&mut self, register: Register)
        requires
            old(self).wf(),
            register.0 < old(self).ops@.len(),
            forall|k: int|
                0 <= k < old(self).knobs@.len() ==> (#[trigger] old(self).knobs@[k]).0.0
                    < register.0,
        ensures
            final(self).wf(),
            final(self).ops@ == old(self).ops@,
            final(self).vars@ == old(self).vars@,
            final(self).symbols@ == old(self).symbols@,
            final(self).tys@ == old(self).tys@,
            final(self).knobs@ == old(self).knobs@.push((register, KnobKind::Runtime)),
    {
        self.knobs.push((register, KnobKind::Runtime));
    }

    /// Attach a buffer-sourced knob to the register just defined.
    fn attach_buffer_knob(&mut self, register: Register, buffer: Register, start: u64, end: u64)
        requires
            old(self).wf(),
            register.0 < old(self).ops@.len(),
            buffer.0 < register.0,
            buffer_desc_at(old(self).ops@, buffer.0 as int) is Some,
            start <= end,
            forall|k: int|
                0 <= k < old(self).knobs@.len() ==> (#[trigger] old(self).knobs@[k]).0.0
                    < register.0,
        ensures
            final(self).wf(),
            final(self).ops@ == old(self).ops@,
            final(self).vars@ == old(self).vars@,
            final(self).symbols@ == old(self).symbols@,
            final(self).tys@ == old(self).tys@,
            final(self).knobs@ == old(self).knobs@.push(
                (register, KnobKind::Buffer { buffer, start, end }),
            ),
    {
        self.knobs.push((register, KnobKind::Buffer { buffer, start, end }));
    }
}

impl<'lt> WithKnob<'lt> {
    /// See [`CommandBuffer::solid_rgba`]; the color block becomes a knob.
    pub fn solid_rgba(self, describe: Descriptor, color: [u32; 4]) -> (r: Result<
        Register,
        CommandError,
    >)
        requires
            (*old(self.inner)).wf(),
        ensures
            (*final(self.inner)).wf(),
            match r {
                Ok(reg) => {
                    &&& reg.0 == (*old(self.inner)).ops@.len()
                    &&& (*final(self.inner)).knobs@ == (*old(self.inner)).knobs@.push(
                        (reg, KnobKind::Runtime),
                    )
                    &&& (*final(self.inner)).ops@ == (*old(self.inner)).ops@.push(
                        Op::Construct {
                            desc: GenericDescriptor::spec_of_descriptor(describe),
                            op: ConstructOp::Solid(color),
                        },
                    )
                },
                Err(_) => {
                    &&& !(describe.spec_consistent() && describe.layout.texel_stride == 4)
                    &&& (*final(self.inner)).spec_unchanged(*old(self.inner))
                },
            },
    {
        let inner = self.inner;
        let ghost prior = *inner;
        let register = match inner.solid_rgba(describe, color) {
            Ok(register) => register,
            Err(e) => {
                return Err(e);
            },
        };
        proof {
            assert forall|k: int| 0 <= k < inner.knobs@.len() implies (
            #[trigger] inner.knobs@[k]).0.0 < register.0 by {
                assert(prior.knobs@[k].0.0 < prior.ops@.len());
            }
        }
        inner.attach_runtime_knob(register);
        Ok(register)
    }

    /// See [`CommandBuffer::distribution_normal2d`]; the distribution
    /// parameters become a knob.
    pub fn distribution_normal2d(
        self,
        describe: Descriptor,
        distribution: shaders::distribution_normal2d::Shader,
    ) -> (r: Result<Register, CommandError>)
        requires
            (*old(self.inner)).wf(),
        ensures
            (*final(self.inner)).wf(),
            match r {
                Ok(reg) => {
                    &&& reg.0 == (*old(self.inner)).ops@.len()
                    &&& (*final(self.inner)).knobs@ == (*old(self.inner)).knobs@.push(
                        (reg, KnobKind::Runtime),
                    )
                    &&& (*final(self.inner)).ops@ == (*old(self.inner)).ops@.push(
                        Op::Construct {
                            desc: GenericDescriptor::spec_of_descriptor(describe),
                            op: ConstructOp::DistributionNormal(distribution),
                        },
                    )
                },
                Err(_) => {
                    &&& !(describe.spec_consistent() && (describe.texel.parts == SampleParts::Luma
                        || describe.texel.parts == SampleParts::LumaA))
                    &&& (*final(self.inner)).spec_unchanged(*old(self.inner))
                },
            },
    {
        let inner = self.inner;
        let ghost prior = *inner;
        let register = match inner.distribution_normal2d(describe, distribution) {
            Ok(register) => register,
            Err(e) => {
                return Err(e);
            },
        };
        proof {
            assert forall|k: int| 0 <= k < inner.knobs@.len() implies (
            #[trigger] inner.knobs@[k]).0.0 < register.0 by {
                assert(prior.knobs@[k].0.0 < prior.ops@.len());
            }
        }
        inner.attach_runtime_knob(register);
        Ok(register)
    }

    /// See [`CommandBuffer::distribution_fractal_noise`]; the noise
    /// parameters become a knob.
    pub fn distribution_fractal_noise(
        self,
        describe: Descriptor,
        distribution: shaders::fractal_noise::Shader,
    ) -> (r: Result<Register, CommandError>)
        requires
            (*old(self.inner)).wf(),
        ensures
            (*final(self.inner)).wf(),
            match r {
                Ok(reg) => {
                    &&& reg.0 == (*old(self.inner)).ops@.len()
                    &&& (*final(self.inner)).knobs@ == (*old(self.inner)).knobs@.push(
                        (reg, KnobKind::Runtime),
                    )
                    &&& (*final(self.inner)).ops@ == (*old(self.inner)).ops@.push(
                        Op::Construct {
                            desc: GenericDescriptor::spec_of_descriptor(describe),
                            op: ConstructOp::DistributionNoise(distribution),
                        },
                    )
                },
                Err(_) => {
                    &&& !describe.spec_consistent()
                    &&& (*final(self.inner)).spec_unchanged(*old(self.inner))
                },
            },
    {
        let inner = self.inner;
        let ghost prior = *inner;
        let register = match inner.distribution_fractal_noise(describe, distribution) {
            Ok(register) => register,
            Err(e) => {
                return Err(e);
            },
        };
        proof {
            assert forall|k: int| 0 <= k < inner.knobs@.len() implies (
            #[trigger] inner.knobs@[k]).0.0 < register.0 by {
                assert(prior.knobs@[k].0.0 < prior.ops@.len());
            }
        }
        inner.attach_runtime_knob(register);
        Ok(register)
    }

    /// See [`CommandBuffer::bilinear`]; the coefficients become a knob.
    pub fn bilinear(self, describe: Descriptor, distribution: shaders::bilinear::Shader) -> (r:
        Result<Register, CommandError>)
        requires
            (*old(self.inner)).wf(),
        ensures
            (*final(self.inner)).wf(),
            match r {
                Ok(reg) => {
                    &&& reg.0 == (*old(self.inner)).ops@.len()
                    &&& (*final(self.inner)).knobs@ == (*old(self.inner)).knobs@.push(
                        (reg, KnobKind::Runtime),
                    )
                    &&& (*final(self.inner)).ops@ == (*old(self.inner)).ops@.push(
                        Op::Construct {
                            desc: GenericDescriptor::spec_of_descriptor(describe),
                            op: ConstructOp::Bilinear(distribution),
                        },
                    )
                },
                Err(_) => {
                    &&& !describe.spec_consistent()
                    &&& (*final(self.inner)).spec_unchanged(*old(self.inner))
                },
            },
    {
        let inner = self.inner;
        let ghost prior = *inner;
        let register = match inner.bilinear(describe, distribution) {
            Ok(register) => register,
            Err(e) => {
                return Err(e);
            },
        };
        proof {
            assert forall|k: int| 0 <= k < inner.knobs@.len() implies (
            #[trigger] inner.knobs@[k]).0.0 < register.0 by {
                assert(prior.knobs@[k].0.0 < prior.ops@.len());
            }
        }
        inner.attach_runtime_knob(register);
        Ok(register)
    }

    /// See [`CommandBuffer::inscribe`]; the placement block becomes a knob.
    pub fn inscribe(self, below: Register, rect: Rectangle, above: Register) -> (r: Result<
        Register,
        CommandError,
    >)
        requires
            (*old(self.inner)).wf(),
        ensures
            (*final(self.inner)).wf(),
            match r {
                Ok(reg) => {
                    &&& reg.0 == (*old(self.inner)).ops@.len()
                    &&& (*final(self.inner)).knobs@ == (*old(self.inner)).knobs@.push(
                        (reg, KnobKind::Runtime),
                    )
                    &&& (*final(self.inner)).ops@.len() == (*old(self.inner)).ops@.len() + 1
                },
                Err(_) => {
                    &&& !spec_inscribe_accepted((*old(self.inner)).ops@, below, rect, above)
                    &&& (*final(self.inner)).spec_unchanged(*old(self.inner))
                },
            },
    {
        let inner = self.inner;
        let ghost prior = *inner;
        let register = match inner.inscribe(below, rect, above) {
            Ok(register) => register,
            Err(e) => {
                return Err(e);
            },
        };
        proof {
            assert forall|k: int| 0 <= k < inner.knobs@.len() implies (
            #[trigger] inner.knobs@[k]).0.0 < register.0 by {
                assert(prior.knobs@[k].0.0 < prior.ops@.len());
            }
        }
        inner.attach_runtime_knob(register);
        Ok(register)
    }

    /// See [`CommandBuffer::chromatic_adaptation`]; the color matrix block
    /// becomes a knob.
    pub fn chromatic_adaptation(
        self,
        src: Register,
        method: ChromaticAdaptationMethod,
        target: Illuminant,
    ) -> (r: Result<Register, CommandError>)
        requires
            (*old(self.inner)).wf(),
        ensures
            (*final(self.inner)).wf(),
            match r {
                Ok(reg) => {
                    &&& reg.0 == (*old(self.inner)).ops@.len()
                    &&& (*final(self.inner)).knobs@ == (*old(self.inner)).knobs@.push(
                        (reg, KnobKind::Runtime),
                    )
                    &&& (*final(self.inner)).ops@.len() == (*old(self.inner)).ops@.len() + 1
                },
                Err(_) => {
                    &&& !spec_adaptation_input_accepted((*old(self.inner)).ops@, src)
                    &&& (*final(self.inner)).spec_unchanged(*old(self.inner))
                },
            },
    {
        let inner = self.inner;
        let ghost prior = *inner;
        let register = match inner.chromatic_adaptation(src, method, target) {
            Ok(register) => register,
            Err(e) => {
                return Err(e);
            },
        };
        proof {
            assert forall|k: int| 0 <= k < inner.knobs@.len() implies (
            #[trigger] inner.knobs@[k]).0.0 < register.0 by {
                assert(prior.knobs@[k].0.0 < prior.ops@.len());
            }
        }
        inner.attach_runtime_knob(register);
        Ok(register)
    }

    /// See [`CommandBuffer::buffer_init`]; the initial bytes become a knob.
    pub fn buffer_init(self, init: &[u8]) -> (r: Result<Register, CommandError>)
        requires
            (*old(self.inner)).wf(),
        ensures
            (*final(self.inner)).wf(),
            match r {
                Ok(reg) => {
                    &&& reg.0 == (*old(self.inner)).ops@.len()
                    &&& (*final(self.inner)).knobs@ == (*old(self.inner)).knobs@.push(
                        (reg, KnobKind::Runtime),
                    )
                    &&& (*final(self.inner)).ops@.len() == (*old(self.inner)).ops@.len() + 1
                },
                Err(_) => false,
            },
    {
        let inner = self.inner;
        let ghost prior = *inner;
        let register = inner.buffer_init(init);
        proof {
            assert forall|k: int| 0 <= k < inner.knobs@.len() implies (
            #[trigger] inner.knobs@[k]).0.0 < register.0 by {
                assert(prior.knobs@[k].0.0 < prior.ops@.len());
            }
        }
        inner.attach_runtime_knob(register);
        Ok(register)
    }
}

impl<'lt> WithBuffer<'lt> {
    /// Change the start of the buffer region passed as the dynamic value.
    ///
    /// Accepted exactly when the start is aligned to four bytes; the
    /// caller-supplied offset is retained.
    pub fn with_start(self, start: u64) -> (r: Result<WithBuffer<'lt>, CommandError>)
        ensures
            match r {
                Ok(with) => {
                    &&& start % 4 == 0
                    &&& with.start == start
                    &&& with.guaranteed_len == self.guaranteed_len
                    &&& with.register == self.register
                },
                Err(e) => start % 4 != 0 && e.inner is Other,
            },
    {
        if start % 4 != 0 {
            return Err(CommandError::other());
        }
        Ok(WithBuffer { start, ..self })
    }

    /// Whether a block of `len` bytes at the configured start lies inside
    /// the guaranteed length of the buffer.
    fn check_len(&self, len: u64) -> (r: bool)
        ensures
            r == (self.start + len <= self.guaranteed_len),
    {
        self.start <= self.guaranteed_len && self.guaranteed_len - self.start >= len
    }

    /// See [`CommandBuffer::solid_rgba`]; the color block is read from the
    /// buffer. The block holds four single-precision words.
    pub fn solid_rgba(self, describe: Descriptor, color: [u32; 4]) -> (r: Result<
        Register,
        CommandError,
    >)
        requires
            (*old(self.inner)).wf(),
            self.register.0 < (*old(self.inner)).ops@.len(),
            buffer_desc_at((*old(self.inner)).ops@, self.register.0 as int) is Some,
        ensures
            (*final(self.inner)).wf(),
            match r {
                Ok(reg) => {
                    &&& reg.0 == (*old(self.inner)).ops@.len()
                    &&& (*final(self.inner)).knobs@ == (*old(self.inner)).knobs@.push(
                        (
                            reg,
                            KnobKind::Buffer {
                                buffer: self.register,
                                start: self.start,
                                end: (self.start + 16) as u64,
                            },
                        ),
                    )
                    &&& (*final(self.inner)).ops@ == (*old(self.inner)).ops@.push(
                        Op::Construct {
                            desc: GenericDescriptor::spec_of_descriptor(describe),
                            op: ConstructOp::Solid(color),
                        },
                    )
                },
                Err(_) => {
                    &&& !(self.start + 16 <= self.guaranteed_len && describe.spec_consistent()
                        && describe.layout.texel_stride == 4)
                    &&& (*final(self.inner)).spec_unchanged(*old(self.inner))
                },
            },
    {
        if !self.check_len(16) {
            return Err(CommandError::other());
        }
        let WithBuffer { inner, start, register: buffer, .. } = self;
        let ghost prior = *inner;
        let register = match inner.solid_rgba(describe, color) {
            Ok(register) => register,
            Err(e) => {
                return Err(e);
            },
        };
        proof {
            assert forall|k: int| 0 <= k < inner.knobs@.len() implies (
            #[trigger] inner.knobs@[k]).0.0 < register.0 by {
                assert(prior.knobs@[k].0.0 < prior.ops@.len());
            }
        }
        inner.attach_buffer_knob(register, buffer, start, start + 16);
        Ok(register)
    }

    /// See [`CommandBuffer::chromatic_adaptation`]; the color matrix block
    /// is read from the buffer. The block holds one std140 `mat3x3`.
    pub fn chromatic_adaptation(
        self,
        src: Register,
        method: ChromaticAdaptationMethod,
        target: Illuminant,
    ) -> (r: Result<Register, CommandError>)
        requires
            (*old(self.inner)).wf(),
            self.register.0 < (*old(self.inner)).ops@.len(),
            buffer_desc_at((*old(self.inner)).ops@, self.register.0 as int) is Some,
        ensures
            (*final(self.inner)).wf(),
            match r {
                Ok(reg) => {
                    &&& reg.0 == (*old(self.inner)).ops@.len()
                    &&& (*final(self.inner)).knobs@ == (*old(self.inner)).knobs@.push(
                        (
                            reg,
                            KnobKind::Buffer {
                                buffer: self.register,
                                start: self.start,
                                end: (self.start + 48) as u64,
                            },
                        ),
                    )
                    &&& (*final(self.inner)).ops@.len() == (*old(self.inner)).ops@.len() + 1
                },
                Err(_) => {
                    &&& !(self.start + 48 <= self.guaranteed_len && spec_adaptation_input_accepted(
                        (*old(self.inner)).ops@,
                        src,
                    ))
                    &&& (*final(self.inner)).spec_unchanged(*old(self.inner))
                },
            },
    {
        if !self.check_len(48) {
            return Err(CommandError::other());
        }
        let WithBuffer { inner, start, register: buffer, .. } = self;
        let ghost prior = *inner;
        let register = match inner.chromatic_adaptation(src, method, target) {
            Ok(register) => register,
            Err(e) => {
                return Err(e);
            },
        };
        proof {
            assert forall|k: int| 0 <= k < inner.knobs@.len() implies (
            #[trigger] inner.knobs@[k]).0.0 < register.0 by {
                assert(prior.knobs@[k].0.0 < prior.ops@.len());
            }
        }
        inner.attach_buffer_knob(register, buffer, start, start + 48);
        Ok(register)
    }

    /// See [`CommandBuffer::distribution_normal2d`]; the parameters are
    /// read from the buffer. The block holds eight words.
    pub fn distribution_normal2d(
        self,
        describe: Descriptor,
        distribution: shaders::distribution_normal2d::Shader,
    ) -> (r: Result<Register, CommandError>)
        requires
            (*old(self.inner)).wf(),
            self.register.0 < (*old(self.inner)).ops@.len(),
            buffer_desc_at((*old(self.inner)).ops@, self.register.0 as int) is Some,
        ensures
            (*final(self.inner)).wf(),
            match r {
                Ok(reg) => {
                    &&& reg.0 == (*old(self.inner)).ops@.len()
                    &&& (*final(self.inner)).knobs@ == (*old(self.inner)).knobs@.push(
                        (
                            reg,
                            KnobKind::Buffer {
                                buffer: self.register,
                                start: self.start,
                                end: (self.start + 32) as u64,
                            },
                        ),
                    )
                    &&& (*final(self.inner)).ops@.len() == (*old(self.inner)).ops@.len() + 1
                },
                Err(_) => {
                    &&& !(self.start + 32 <= self.guaranteed_len && describe.spec_consistent() && (
                    describe.texel.parts == SampleParts::Luma || describe.texel.parts
                        == SampleParts::LumaA))
                    &&& (*final(self.inner)).spec_unchanged(*old(self.inner))
                },
            },
    {
        if !self.check_len(32) {
            return Err(CommandError::other());
        }
        let WithBuffer { inner, start, register: buffer, .. } = self;
        let ghost prior = *inner;
        let register = match inner.distribution_normal2d(describe, distribution) {
            Ok(register) => register,
            Err(e) => {
                return Err(e);
            },
        };
        proof {
            assert forall|k: int| 0 <= k < inner.knobs@.len() implies (
            #[trigger] inner.knobs@[k]).0.0 < register.0 by {
                assert(prior.knobs@[k].0.0 < prior.ops@.len());
            }
        }
        inner.attach_buffer_knob(register, buffer, start, start + 32);
        Ok(register)
    }

    /// See [`CommandBuffer::distribution_fractal_noise`]; the parameters
    /// are read from the buffer. The block holds six words.
    pub fn distribution_fractal_noise(
        self,
        describe: Descriptor,
        distribution: shaders::fractal_noise::Shader,
    ) -> (r: Result<Register, CommandError>)
        requires
            (*old(self.inner)).wf(),
            self.register.0 < (*old(self.inner)).ops@.len(),
            buffer_desc_at((*old(self.inner)).ops@, self.register.0 as int) is Some,
        ensures
            (*final(self.inner)).wf(),
            match r {
                Ok(reg) => {
                    &&& reg.0 == (*old(self.inner)).ops@.len()
                    &&& (*final(self.inner)).knobs@ == (*old(self.inner)).knobs@.push(
                        (
                            reg,
                            KnobKind::Buffer {
                                buffer: self.register,
                                start: self.start,
                                end: (self.start + 24) as u64,
                            },
                        ),
                    )
                    &&& (*final(self.inner)).ops@.len() == (*old(self.inner)).ops@.len() + 1
                },
                Err(_) => {
                    &&& !(self.start + 24 <= self.guaranteed_len && describe.spec_consistent())
                    &&& (*final(self.inner)).spec_unchanged(*old(self.inner))
                },
            },
    {
        if !self.check_len(24) {
            return Err(CommandError::other());
        }
        let WithBuffer { inner, start, register: buffer, .. } = self;
        let ghost prior = *inner;
        let register = match inner.distribution_fractal_noise(describe, distribution) {
            Ok(register) => register,
            Err(e) => {
                return Err(e);
            },
        };
        proof {
            assert forall|k: int| 0 <= k < inner.knobs@.len() implies (
            #[trigger] inner.knobs@[k]).0.0 < register.0 by {
                assert(prior.knobs@[k].0.0 < prior.ops@.len());
            }
        }
        inner.attach_buffer_knob(register, buffer, start, start + 24);
        Ok(register)
    }

    /// See [`CommandBuffer::bilinear`]; the coefficients are read from the
    /// buffer. The block holds six vec4 of words.
    pub fn bilinear(self, describe: Descriptor, distribution: shaders::bilinear::Shader) -> (r:
        Result<Register, CommandError>)
        requires
            (*old(self.inner)).wf(),
            self.register.0 < (*old(self.inner)).ops@.len(),
            buffer_desc_at((*old(self.inner)).ops@, self.register.0 as int) is Some,
        ensures
            (*final(self.inner)).wf(),
            match r {
                Ok(reg) => {
                    &&& reg.0 == (*old(self.inner)).ops@.len()
                    &&& (*final(self.inner)).knobs@ == (*old(self.inner)).knobs@.push(
                        (
                            reg,
                            KnobKind::Buffer {
                                buffer: self.register,
                                start: self.start,
                                end: (self.start + 96) as u64,
                            },
                        ),
                    )
                    &&& (*final(self.inner)).ops@.len() == (*old(self.inner)).ops@.len() + 1
                },
                Err(_) => {
                    &&& !(self.start + 96 <= self.guaranteed_len && describe.spec_consistent())
                    &&& (*final(self.inner)).spec_unchanged(*old(self.inner))
                },
            },
    {
        if !self.check_len(96) {
            return Err(CommandError::other());
        }
        let WithBuffer { inner, start, register: buffer, .. } = self;
        let ghost prior = *inner;
        let register = match inner.bilinear(describe, distribution) {
            Ok(register) => register,
            Err(e) => {
                return Err(e);
            },
        };
        proof {
            assert forall|k: int| 0 <= k < inner.knobs@.len() implies (
            #[trigger] inner.knobs@[k]).0.0 < register.0 by {
                assert(prior.knobs@[k].0.0 < prior.ops@.len());
            }
        }
        inner.attach_buffer_knob(register, buffer, start, start + 96);
        Ok(register)
    }
}


impl ColorConversion {
    /// The fragment shader that realizes the conversion: a linear color
    /// matrix between two RGB spaces, or the Oklab and SrLab2 transforms
    /// with the linear part of their XYZ bracket.
    pub fn to_shader(&self) -> (r: FragmentShaderInvocation)
        ensures
            match *self {
                ColorConversion::Xyz { from_xyz_matrix, to_xyz_matrix } => r matches
                    FragmentShaderInvocation::LinearColorMatrix(lct) && forall|i: int, j: int|
                    0 <= i < 3 && 0 <= j < 3 ==> #[trigger] lct.matrix.at(3 * i + j)
                        == to_xyz_matrix.product_at(from_xyz_matrix.inv_spec(), i, j),
                ColorConversion::XyzToOklab { to_xyz_matrix } => r matches
                    FragmentShaderInvocation::Oklab(shader) && shader.xyz_transform
                    == to_xyz_matrix && shader.direction == shaders::oklab::Coding::Encode,
                ColorConversion::OklabToXyz { from_xyz_matrix } => r matches
                    FragmentShaderInvocation::Oklab(shader) && shader.xyz_transform
                    == from_xyz_matrix.inv_spec() && shader.direction
                    == shaders::oklab::Coding::Decode,
                ColorConversion::XyzToSrLab2 { to_xyz_matrix, whitepoint } => r matches
                    FragmentShaderInvocation::SrLab2(shader) && shader.matrix == to_xyz_matrix
                    && shader.whitepoint == whitepoint && shader.direction
                    == shaders::srlab2::Coding::Encode,
                ColorConversion::SrLab2ToXyz { from_xyz_matrix, whitepoint } => r matches
                    FragmentShaderInvocation::SrLab2(shader) && shader.matrix
                    == from_xyz_matrix.inv_spec() && shader.whitepoint == whitepoint
                    && shader.direction == shaders::srlab2::Coding::Decode,
            },
    {
        match self {
            ColorConversion::Xyz { from_xyz_matrix, to_xyz_matrix } => {
                let from = from_xyz_matrix.inv();
                let fcol = from.to_col();
                let prod = to_xyz_matrix.multiply_right(fcol);
                let matrix = prod.to_row();
                proof {
                    assert forall|i: int, j: int| 0 <= i < 3 && 0 <= j < 3 implies
                        #[trigger] matrix.at(3 * i + j) == to_xyz_matrix.product_at(
                        from_xyz_matrix.inv_spec(),
                        i,
                        j,
                    ) by {
                        assert(matrix.at(3 * i + j) == prod.0[j][i]);
                        assert(prod.0[j][i] == to_xyz_matrix.row_dot(
                            i,
                            fcol.0[j][0],
                            fcol.0[j][1],
                            fcol.0[j][2],
                        ));
                        assert(fcol.0[j][0] == from.at(j));
                        assert(fcol.0[j][1] == from.at(3 + j));
                        assert(fcol.0[j][2] == from.at(6 + j));
                    }
                }
                FragmentShaderInvocation::LinearColorMatrix(
                    shaders::LinearColorTransform { matrix },
                )
            },
            ColorConversion::XyzToOklab { to_xyz_matrix } => FragmentShaderInvocation::Oklab(
                shaders::oklab::Shader::with_encode(*to_xyz_matrix),
            ),
            ColorConversion::OklabToXyz { from_xyz_matrix } => FragmentShaderInvocation::Oklab(
                shaders::oklab::Shader::with_decode(from_xyz_matrix.inv()),
            ),
            ColorConversion::XyzToSrLab2 { to_xyz_matrix, whitepoint } => {
                FragmentShaderInvocation::SrLab2(
                    shaders::srlab2::Shader::with_encode(*to_xyz_matrix, *whitepoint),
                )
            },
            ColorConversion::SrLab2ToXyz { from_xyz_matrix, whitepoint } => {
                FragmentShaderInvocation::SrLab2(
                    shaders::srlab2::Shader::with_decode(from_xyz_matrix.inv(), *whitepoint),
                )
            },
        }
    }
}

/// The smoothing weights of a derivative operator, or nothing for the
/// operators that are recognized but not implemented.
pub open spec fn spec_smoothing(method: DerivativeMethod) -> Option<[u32; 3]> {
    let one = crate::fp32::int_bits(1);
    match method {
        DerivativeMethod::Prewitt => {
            let t = crate::fp32::div_bits(one, crate::fp32::int_bits(3));
            Some([t, t, t])
        },
        DerivativeMethod::Sobel => {
            let q = crate::fp32::div_bits(one, crate::fp32::int_bits(4));
            let h = crate::fp32::div_bits(one, crate::fp32::int_bits(2));
            Some([q, h, q])
        },
        DerivativeMethod::Scharr3 => {
            let a = crate::fp32::div_bits(
                crate::fp32::div_bits(crate::fp32::int_bits(4684), crate::fp32::int_bits(100)),
                crate::fp32::int_bits(256),
            );
            let b = crate::fp32::div_bits(
                crate::fp32::div_bits(crate::fp32::int_bits(16232), crate::fp32::int_bits(100)),
                crate::fp32::int_bits(256),
            );
            Some([a, b, a])
        },
        DerivativeMethod::Scharr3To4Bit => {
            let a = crate::fp32::div_bits(crate::fp32::int_bits(3), crate::fp32::int_bits(16));
            let b = crate::fp32::div_bits(crate::fp32::int_bits(10), crate::fp32::int_bits(16));
            Some([a, b, a])
        },
        DerivativeMethod::Scharr3To8Bit => {
            let a = crate::fp32::div_bits(crate::fp32::int_bits(47), crate::fp32::int_bits(256));
            let b = crate::fp32::div_bits(crate::fp32::int_bits(162), crate::fp32::int_bits(256));
            Some([a, b, a])
        },
        _ => None,
    }
}

/// The central-difference weights of the derivative direction.
pub open spec fn spec_derivative_diff() -> [u32; 3] {
    [crate::fp32::F32_HALF, crate::fp32::F32_ZERO, crate::fp32::neg_bits(crate::fp32::F32_HALF)]
}

impl DerivativeMethod {
    /// The box convolution realizing this derivative along the direction:
    /// the outer product of the smoothing weights with the difference
    /// weights, transposed for the vertical direction.
    pub fn to_shader(&self, direction: Direction) -> (r: Result<
        FragmentShaderInvocation,
        CompileError,
    >)
        ensures
            match r {
                Ok(inv) => spec_smoothing(*self) matches Some(smooth) && inv matches
                    FragmentShaderInvocation::Box3(shader) && forall|i: int, j: int|
                    0 <= i < 3 && 0 <= j < 3 ==> #[trigger] shader.matrix.at(3 * i + j) == (
                    match direction {
                        Direction::Width => crate::fp32::mul_bits(
                            smooth[i],
                            spec_derivative_diff()[j],
                        ),
                        Direction::Height => crate::fp32::mul_bits(
                            smooth[j],
                            spec_derivative_diff()[i],
                        ),
                    }),
                Err(e) => spec_smoothing(*self) is None && e == CompileError::NotYetImplemented,
            },
    {
        let one = crate::fp32::f32_int(1);
        let smooth: [u32; 3] = match self {
            DerivativeMethod::Prewitt => {
                let t = crate::fp32::f32_div(one, crate::fp32::f32_int(3));
                [t, t, t]
            },
            DerivativeMethod::Sobel => {
                let q = crate::fp32::f32_div(one, crate::fp32::f32_int(4));
                let h = crate::fp32::f32_div(one, crate::fp32::f32_int(2));
                [q, h, q]
            },
            DerivativeMethod::Scharr3 => {
                let a = crate::fp32::f32_div(
                    crate::fp32::f32_div(crate::fp32::f32_int(4684), crate::fp32::f32_int(100)),
                    crate::fp32::f32_int(256),
                );
                let b = crate::fp32::f32_div(
                    crate::fp32::f32_div(crate::fp32::f32_int(16232), crate::fp32::f32_int(100)),
                    crate::fp32::f32_int(256),
                );
                [a, b, a]
            },
            DerivativeMethod::Scharr3To4Bit => {
                let a = crate::fp32::f32_div(crate::fp32::f32_int(3), crate::fp32::f32_int(16));
                let b = crate::fp32::f32_div(crate::fp32::f32_int(10), crate::fp32::f32_int(16));
                [a, b, a]
            },
            DerivativeMethod::Scharr3To8Bit => {
                let a = crate::fp32::f32_div(crate::fp32::f32_int(47), crate::fp32::f32_int(256));
                let b = crate::fp32::f32_div(crate::fp32::f32_int(162), crate::fp32::f32_int(256));
                [a, b, a]
            },
            _ => {
                return Err(CompileError::NotYetImplemented);
            },
        };
        let diff = [
            crate::fp32::F32_HALF,
            crate::fp32::F32_ZERO,
            crate::fp32::f32_neg(crate::fp32::F32_HALF),
        ];
        proof {
            assert(diff =~= spec_derivative_diff());
            assert(smooth =~= spec_smoothing(*self)->0);
        }
        let matrix = direction.adjust_vertical_box(RowMatrix::with_outer_product(smooth, diff));
        Ok(FragmentShaderInvocation::Box3(shaders::box3::Shader::new(matrix)))
    }
}

impl Direction {
    /// A horizontal box kernel stays; a vertical one is its transpose.
    pub fn adjust_vertical_box(self, mat: RowMatrix) -> (r: RowMatrix)
        ensures
            forall|i: int, j: int|
                0 <= i < 3 && 0 <= j < 3 ==> #[trigger] r.at(3 * i + j) == (match self {
                    Direction::Width => mat.at(3 * i + j),
                    Direction::Height => mat.at(3 * j + i),
                }),
    {
        match self {
            Direction::Width => mat,
            Direction::Height => mat.transpose(),
        }
    }
}

impl AffineSample {
    /// The paint operation realizing this sampling; bilinear interpolation
    /// is recognized but not implemented.
    pub fn as_paint_on_top(self) -> (r: Result<PaintOnTopKind, CompileError>)
        ensures
            match r {
                Ok(kind) => self is Nearest && kind == PaintOnTopKind::Copy,
                Err(e) => self is BiLinear && e == CompileError::NotYetImplemented,
            },
    {
        match self {
            AffineSample::Nearest => Ok(PaintOnTopKind::Copy),
            AffineSample::BiLinear => Err(CompileError::NotYetImplemented),
        }
    }
}

impl Affine {
    /// Create affine parameters with the identity transformation.
    pub fn new(sampling: AffineSample) -> (r: Self)
        ensures
            r.sampling == sampling,
            r.transformation == [
                crate::fp32::F32_ONE,
                0u32,
                0u32,
                0u32,
                crate::fp32::F32_ONE,
                0u32,
                0u32,
                0u32,
                crate::fp32::F32_ONE,
            ],
    {
        let one = crate::fp32::F32_ONE;
        Affine { transformation: [one, 0, 0, 0, one, 0, 0, 0, one], sampling }
    }

    /// Left-multiply the transformation by another matrix, which applies
    /// the new step after the existing transformation.
    fn compose_left(self, post: RowMatrix) -> (r: Self)
        ensures
            r.sampling == self.sampling,
            forall|i: int, j: int|
                0 <= i < 3 && 0 <= j < 3 ==> #[trigger] RowMatrix(r.transformation).at(3 * i + j)
                    == post.product_at(RowMatrix(self.transformation), i, j),
    {
        let own = RowMatrix::new(self.transformation);
        let ocol = own.to_col();
        let prod = post.multiply_right(ocol);
        let transformation = prod.to_row().into_inner();
        proof {
            assert forall|i: int, j: int| 0 <= i < 3 && 0 <= j < 3 implies #[trigger] RowMatrix(
                transformation,
            ).at(3 * i + j) == post.product_at(RowMatrix(self.transformation), i, j) by {
                assert(RowMatrix(transformation).at(3 * i + j) == prod.0[j][i]);
                assert(prod.0[j][i] == post.row_dot(i, ocol.0[j][0], ocol.0[j][1], ocol.0[j][2]));
                assert(ocol.0[j][0] == own.at(j));
                assert(ocol.0[j][1] == own.at(3 + j));
                assert(ocol.0[j][2] == own.at(6 + j));
            }
        }
        Affine { transformation, sampling: self.sampling }
    }

    /// After the transformation, also scale everything; the factors are
    /// single-precision bit patterns.
    pub fn scale(self, x: u32, y: u32) -> (r: Self)
        ensures
            r.sampling == self.sampling,
            forall|i: int, j: int|
                0 <= i < 3 && 0 <= j < 3 ==> #[trigger] RowMatrix(r.transformation).at(3 * i + j)
                    == RowMatrix(
                    [x, 0u32, 0u32, 0u32, y, 0u32, 0u32, 0u32, crate::fp32::F32_ONE],
                ).product_at(RowMatrix(self.transformation), i, j),
    {
        let post = RowMatrix::diag(x, y, crate::fp32::F32_ONE);
        proof {
            assert(post.0 =~= [x, 0u32, 0u32, 0u32, y, 0u32, 0u32, 0u32, crate::fp32::F32_ONE]);
        }
        self.compose_left(post)
    }

    /// After the transformation, rotate everything clockwise. The rotation
    /// is given by the sine and cosine of its angle, as single-precision
    /// bit patterns.
    pub fn rotate(self, sin: u32, cos: u32) -> (r: Self)
        ensures
            r.sampling == self.sampling,
            forall|i: int, j: int|
                0 <= i < 3 && 0 <= j < 3 ==> #[trigger] RowMatrix(r.transformation).at(3 * i + j)
                    == RowMatrix(
                    [
                        cos,
                        sin,
                        0u32,
                        crate::fp32::neg_bits(sin),
                        cos,
                        0u32,
                        0u32,
                        0u32,
                        crate::fp32::F32_ONE,
                    ],
                ).product_at(RowMatrix(self.transformation), i, j),
    {
        let post = RowMatrix::new(
            [cos, sin, 0, crate::fp32::f32_neg(sin), cos, 0, 0, 0, crate::fp32::F32_ONE],
        );
        self.compose_left(post)
    }

    /// After the transformation, shift by an offset; the coordinates are
    /// single-precision bit patterns.
    pub fn shift(self, x: u32, y: u32) -> (r: Self)
        ensures
            r.sampling == self.sampling,
            forall|i: int, j: int|
                0 <= i < 3 && 0 <= j < 3 ==> #[trigger] RowMatrix(r.transformation).at(3 * i + j)
                    == RowMatrix(
                    [
                        crate::fp32::F32_ONE,
                        0u32,
                        x,
                        0u32,
                        crate::fp32::F32_ONE,
                        y,
                        0u32,
                        0u32,
                        crate::fp32::F32_ONE,
                    ],
                ).product_at(RowMatrix(self.transformation), i, j),
    {
        let one = crate::fp32::F32_ONE;
        let post = RowMatrix::new([one, 0, x, 0, one, y, 0, 0, one]);
        self.compose_left(post)
    }
}

/// Methods that extend the command buffer with user-supplied shaders.
///
/// The steps are: take the SPIR-V source and the packed data of the
/// invocation, determine the typing of the result, and record a new node.
impl CommandBuffer {
    /// Record a constructor with a user-supplied shader.
    ///
    /// Accepted exactly when the invocation binds no samplers.
    pub fn construct_dynamic(&mut self, dynamic: ShaderInvocation, desc: Descriptor) -> (r: Result<
        Register,
        CommandError,
    >)
        requires
            old(self).wf(),
        ensures
            final(self).wf(),
            final(self).spec_same_tables(*old(self)),
            match r {
                Ok(reg) => {
                    &&& dynamic.num_args == 0
                    &&& final(self).ops@.len() == old(self).ops@.len() + 1
                    &&& final(self).ops@.take(old(self).ops@.len() as int) == old(self).ops@
                    &&& final(self).ops@.last() matches Op::DynamicImage { call, command, desc: d }
                        && call is Construct && command.spirv@ == dynamic.spirv@ && d
                        == GenericDescriptor::spec_of_descriptor(desc)
                    &&& reg.0 == old(self).ops@.len()
                },
                Err(e) => {
                    &&& dynamic.num_args != 0
                    &&& e.inner is Other
                    &&& final(self).spec_unchanged(*old(self))
                },
            },
    {
        if dynamic.num_args != 0 {
            return Err(CommandError::other());
        }
        let op = Op::DynamicImage {
            call: OperandDynKind::Construct,
            command: dynamic,
            desc: GenericDescriptor::of_descriptor(&desc),
        };
        let ghost op_spec = op;
        let ghost prior = *self;
        let reg = self.push(op);
        proof {
            self.lemma_builder_push(prior, op_spec);
            assert(self.ops@.take(prior.ops@.len() as int) =~= prior.ops@);
        }
        Ok(reg)
    }

    /// Record a unary operator with a user-supplied shader.
    ///
    /// Accepted exactly when the operand holds a texture and the
    /// invocation binds one sampler.
    pub fn unary_dynamic(&mut self, op: Register, dynamic: ShaderInvocation, desc: Descriptor)
        -> (r: Result<Register, CommandError>)
        requires
            old(self).wf(),
        ensures
            final(self).wf(),
            final(self).spec_same_tables(*old(self)),
            match r {
                Ok(reg) => {
                    &&& dynamic.num_args == 1
                    &&& texture_desc_at(old(self).ops@, op.0 as int) is Some
                    &&& final(self).ops@.len() == old(self).ops@.len() + 1
                    &&& final(self).ops@.take(old(self).ops@.len() as int) == old(self).ops@
                    &&& final(self).ops@.last() matches Op::DynamicImage {
                        call: OperandDynKind::Unary(src),
                        command,
                        desc: d,
                    } && src == op && command.spirv@ == dynamic.spirv@ && d
                        == GenericDescriptor::spec_of_descriptor(desc)
                    &&& reg.0 == old(self).ops@.len()
                },
                Err(e) => {
                    &&& !(dynamic.num_args == 1 && texture_desc_at(
                        old(self).ops@,
                        op.0 as int,
                    ) is Some)
                    &&& e.inner is Other
                    &&& final(self).spec_unchanged(*old(self))
                },
            },
    {
        match self.describe_reg(op).as_texture() {
            Ok(_) => {},
            Err(e) => {
                return Err(e);
            },
        };
        if dynamic.num_args != 1 {
            return Err(CommandError::other());
        }
        let node = Op::DynamicImage {
            call: OperandDynKind::Unary(op),
            command: dynamic,
            desc: GenericDescriptor::of_descriptor(&desc),
        };
        let ghost op_spec = node;
        let ghost prior = *self;
        let reg = self.push(node);
        proof {
            lemma_desc_at_push(prior.ops@, op_spec);
            self.lemma_builder_push(prior, op_spec);
            assert(self.ops@.take(prior.ops@.len() as int) =~= prior.ops@);
        }
        Ok(reg)
    }

    /// Record a binary operator with a user-supplied shader.
    ///
    /// Accepted exactly when both operands hold textures and the
    /// invocation binds two samplers.
    pub fn binary_dynamic(
        &mut self,
        lhs: Register,
        rhs: Register,
        dynamic: ShaderInvocation,
        desc: Descriptor,
    ) -> (r: Result<Register, CommandError>)
        requires
            old(self).wf(),
        ensures
            final(self).wf(),
            final(self).spec_same_tables(*old(self)),
            match r {
                Ok(reg) => {
                    &&& dynamic.num_args == 2
                    &&& texture_desc_at(old(self).ops@, lhs.0 as int) is Some
                    &&& texture_desc_at(old(self).ops@, rhs.0 as int) is Some
                    &&& final(self).ops@.len() == old(self).ops@.len() + 1
                    &&& final(self).ops@.take(old(self).ops@.len() as int) == old(self).ops@
                    &&& final(self).ops@.last() matches Op::DynamicImage {
                        call: OperandDynKind::Binary { lhs: l, rhs: r2 },
                        command,
                        desc: d,
                    } && l == lhs && r2 == rhs && command.spirv@ == dynamic.spirv@ && d
                        == GenericDescriptor::spec_of_descriptor(desc)
                    &&& reg.0 == old(self).ops@.len()
                },
                Err(e) => {
                    &&& !(dynamic.num_args == 2 && texture_desc_at(
                        old(self).ops@,
                        lhs.0 as int,
                    ) is Some && texture_desc_at(old(self).ops@, rhs.0 as int) is Some)
                    &&& e.inner is Other
                    &&& final(self).spec_unchanged(*old(self))
                },
            },
    {
        match self.describe_reg(lhs).as_texture() {
            Ok(_) => {},
            Err(e) => {
                return Err(e);
            },
        };
        match self.describe_reg(rhs).as_texture() {
            Ok(_) => {},
            Err(e) => {
                return Err(e);
            },
        };
        if dynamic.num_args != 2 {
            return Err(CommandError::other());
        }
        let node = Op::DynamicImage {
            call: OperandDynKind::Binary { lhs, rhs },
            command: dynamic,
            desc: GenericDescriptor::of_descriptor(&desc),
        };
        let ghost op_spec = node;
        let ghost prior = *self;
        let reg = self.push(node);
        proof {
            lemma_desc_at_push(prior.ops@, op_spec);
            self.lemma_builder_push(prior, op_spec);
            assert(self.ops@.take(prior.ops@.len() as int) =~= prior.ops@);
        }
        Ok(reg)
    }
}


/// A round trip through Oklab uses one matrix both ways: converting an
/// RGB color under the D65 illuminant into Oklab encodes with the color's
/// RGB-to-XYZ matrix, and converting back decodes with the inverse of the
/// very same matrix, so the two lowered shaders compose the matrix with
/// its own inverse.
pub proof fn lemma_oklab_round_trip_shaders(c: Color)
    requires
        c matches Color::Rgb { whitepoint: Illuminant::D65, .. },
    ensures
        c matches Color::Rgb { primary, .. } ==> {
            &&& spec_conversion_of(c, Color::Oklab) == Some(
                ColorConversion::XyzToOklab {
                    to_xyz_matrix: RowMatrix(rgb_to_xyz_matrix(primary, Illuminant::D65)),
                },
            )
            &&& spec_conversion_of(Color::Oklab, c) == Some(
                ColorConversion::OklabToXyz {
                    from_xyz_matrix: RowMatrix(rgb_to_xyz_matrix(primary, Illuminant::D65)),
                },
            )
        },
{
}

/// The transmutation acceptance relation is symmetric: whenever an image
/// of one type may be reinterpreted as another, the result may be
/// reinterpreted back, so a transmutation followed by its reverse is
/// accepted and lowers to two plain copies of the same bytes.
pub proof fn lemma_transmute_symmetric(source: GenericDescriptor, into: GenericDescriptor)
    requires
        source.size == into.size,
        spec_can_transmute(source.chroma, into.chroma),
    ensures
        into.size == source.size,
        spec_can_transmute(into.chroma, source.chroma),
{
}

} // verus!
