//! The vocabulary of GPU work: one [`GlCommand`] per driver call that the backend can ask
//! for, with the enumerations and small values those calls take.

use vstd::prelude::*;

verus! {

/// An IEEE 754 single-precision number, held by its 32 bits. The backend moves such
/// values around and never computes with them.
#[derive(Clone, Copy, Debug, PartialEq, Eq, Structural)]
pub struct Scalar {
    pub bits: u32,
}

/// The bits of zero.
pub const ZERO_BITS: u32 = 0;

/// The bits of one.
pub const ONE_BITS: u32 = 0x3f80_0000;

impl Scalar {
    pub fn from_bits(bits: u32) -> (s: Scalar)
        ensures
            s.bits == bits,
    {
        Scalar { bits }
    }

    pub fn zero() -> (s: Scalar)
        ensures
            s.bits == ZERO_BITS,
    {
        Scalar { bits: ZERO_BITS }
    }

    pub fn one() -> (s: Scalar)
        ensures
            s.bits == ONE_BITS,
    {
        Scalar { bits: ONE_BITS }
    }
}

/// A color of four 8-bit channels.
#[derive(Clone, Copy, Debug, PartialEq, Eq, Structural)]
pub struct Rgba8 {
    pub r: u8,
    pub g: u8,
    pub b: u8,
    pub a: u8,
}

/// Four color channels in exact fixed point. The unit is that of the uniform the value
/// is for: 1/256 for a multiply color, 1/255 for an add color.
#[derive(Clone, Copy, Debug, PartialEq, Eq, Structural)]
pub struct ColorUnits {
    pub r: i32,
    pub g: i32,
    pub b: i32,
    pub a: i32,
}

/// A 2D affine transform. The linear part is four scalars, the translation is in twips,
/// twentieths of a pixel.
#[derive(Clone, Copy, Debug, PartialEq, Eq, Structural)]
pub struct Matrix {
    pub a: Scalar,
    pub b: Scalar,
    pub c: Scalar,
    pub d: Scalar,
    pub tx: i32,
    pub ty: i32,
}

/// A color transform: each channel is multiplied by a factor in 256ths, then a term in
/// 255ths is added.
#[derive(Clone, Copy, Debug, PartialEq, Eq, Structural)]
pub struct ColorTransform {
    pub r_multiply: i16,
    pub g_multiply: i16,
    pub b_multiply: i16,
    pub a_multiply: i16,
    pub r_add: i16,
    pub g_add: i16,
    pub b_add: i16,
    pub a_add: i16,
}

/// Where and in what colors a display object is drawn.
#[derive(Clone, Copy, Debug, PartialEq, Eq, Structural)]
pub struct Transform {
    pub matrix: Matrix,
    pub color_transform: ColorTransform,
}

/// When a bitmap's transform is rounded to whole pixels before it is drawn.
#[derive(Clone, Copy, Debug, PartialEq, Eq, Structural)]
pub enum PixelSnapping {
    Always,
    Auto,
    Never,
}

/// A 4x4 matrix uniform, named by what it is made from. The player of the list works
/// out the sixteen numbers.
#[derive(Clone, Copy, Debug, PartialEq, Eq, Structural)]
pub enum Mat4 {
    /// The affine transform as a world matrix, its translation in pixels.
    World(Matrix),
    /// The world matrix of a bitmap: `matrix` snapped to pixels as `snapping` says, then
    /// scaled by the bitmap's width and height.
    BitmapQuad { matrix: Matrix, snapping: PixelSnapping, width: u32, height: u32 },
    /// The orthographic projection of a viewport of that many device pixels onto clip
    /// space, the origin at the top left and Y pointing down.
    Ortho { width: u32, height: u32 },
    Identity,
    /// The unit square stretched over the whole of clip space.
    ClipSpaceQuad,
}

/// One of the three fixed shader programs.
#[derive(Clone, Copy, Debug, PartialEq, Eq, Structural)]
pub enum Pipeline {
    Color,
    Bitmap,
    Gradient,
}

/// The five shader sources the programs are built from.
#[derive(Clone, Copy, Debug, PartialEq, Eq, Structural)]
pub enum ShaderSource {
    ColorVertex,
    TextureVertex,
    ColorFragment,
    BitmapFragment,
    GradientFragment,
}

/// The color space of gradient stops as the shader gets them.
#[derive(Clone, Copy, Debug, PartialEq, Eq, Structural)]
pub enum ColorSpace {
    Srgb,
    Linear,
}

/// A color by the sRGB bytes it comes from and the space it is expressed in. The numbers
/// of a linear color are worked out from the bytes when the color reaches the GPU; alpha
/// is the same in both spaces.
#[derive(Clone, Copy, Debug, PartialEq, Eq, Structural)]
pub struct StopColor {
    pub rgba: Rgba8,
    pub space: ColorSpace,
}

/// One entry of a gradient's table of stops.
#[derive(Clone, Copy, Debug, PartialEq, Eq, Structural)]
pub struct GradientStop {
    /// The position in 255ths.
    pub ratio: u8,
    pub color: StopColor,
}

/// A switchable stage of the fixed pipeline.
#[derive(Clone, Copy, Debug, PartialEq, Eq, Structural)]
pub enum Capability {
    Blend,
    StencilTest,
}

/// How a fragment's stencil value is compared with the reference.
#[derive(Clone, Copy, Debug, PartialEq, Eq, Structural)]
pub enum CompareFunc {
    Always,
    Equal,
}

/// What happens to a stencil value once the comparison is made.
#[derive(Clone, Copy, Debug, PartialEq, Eq, Structural)]
pub enum StencilAction {
    Keep,
    Increment,
    Decrement,
}

/// How source and destination are combined.
#[derive(Clone, Copy, Debug, PartialEq, Eq, Structural)]
pub enum BlendEquation {
    Add,
    ReverseSubtract,
}

/// The weight of the source or of the destination in a blend.
#[derive(Clone, Copy, Debug, PartialEq, Eq, Structural)]
pub enum BlendFactor {
    One,
    OneMinusSrcAlpha,
}

/// Which binding point a buffer goes to.
#[derive(Clone, Copy, Debug, PartialEq, Eq, Structural)]
pub enum BufferTarget {
    Array,
    ElementArray,
}

/// The component type of a vertex attribute.
#[derive(Clone, Copy, Debug, PartialEq, Eq, Structural)]
pub enum AttribKind {
    Float,
    UnsignedByte,
}

/// The layout of tightly packed pixels.
#[derive(Clone, Copy, Debug, PartialEq, Eq, Structural)]
pub enum PixelFormat {
    Rgb,
    Rgba,
}

/// A sampling parameter of a texture.
#[derive(Clone, Copy, Debug, PartialEq, Eq, Structural)]
pub enum TextureParam {
    WrapS,
    WrapT,
    MinFilter,
    MagFilter,
}

/// The value of a sampling parameter.
#[derive(Clone, Copy, Debug, PartialEq, Eq, Structural)]
pub enum TextureValue {
    ClampToEdge,
    Repeat,
    Linear,
    Nearest,
}

/// How indices are assembled into primitives.
#[derive(Clone, Copy, Debug, PartialEq, Eq, Structural)]
pub enum Primitive {
    Triangles,
    TriangleFan,
    LineStrip,
    LineLoop,
}

/// Which framebuffer binding a call speaks of.
#[derive(Clone, Copy, Debug, PartialEq, Eq, Structural)]
pub enum FramebufferTarget {
    Both,
    Read,
    Draw,
}

#[derive(Clone, Copy, Debug, PartialEq, Eq, Structural)]
pub struct VertexArrayId(pub u64);

#[derive(Clone, Copy, Debug, PartialEq, Eq, Structural)]
pub struct BufferId(pub u64);

#[derive(Clone, Copy, Debug, PartialEq, Eq, Structural)]
pub struct TextureId(pub u64);

#[derive(Clone, Copy, Debug, PartialEq, Eq, Structural)]
pub struct FramebufferId(pub u64);

/// One driver call. Identifiers of buffers, vertex arrays and textures are the backend's
/// own numbers; the player of the list keeps the table from those to the driver's names.
/// A `blob` is an index into the byte strings that come with the list.
#[derive(Clone, Copy, Debug, PartialEq, Eq)]
#[allow(inconsistent_fields)]
pub enum GlCommand {
    Enable(Capability),
    Disable(Capability),
    /// The row alignment of pixel data that is handed over, in bytes.
    PixelStoreUnpackAlignment(i32),
    /// Color writes on or off, all four channels alike.
    ColorMask(bool),
    StencilFunc { func: CompareFunc, reference: u32, mask: u32 },
    /// The actions on a failed stencil test, a failed depth test and a pass.
    StencilOp { fail: StencilAction, depth_fail: StencilAction, pass: StencilAction },
    /// The stencil bits that can be written.
    StencilMask(u32),
    BlendEquationSeparate { rgb: BlendEquation, alpha: BlendEquation },
    BlendFuncSeparate {
        src_rgb: BlendFactor,
        dst_rgb: BlendFactor,
        src_alpha: BlendFactor,
        dst_alpha: BlendFactor,
    },
    /// The viewport, its corner at the origin.
    Viewport { width: i32, height: i32 },
    /// The clear color, each channel in 255ths.
    ClearColor(Rgba8),
    Clear { color: bool, stencil: bool },
    BindFramebuffer { target: FramebufferTarget, framebuffer: Option<FramebufferId> },
    UnbindRenderbuffer,
    /// Copies the color of the read framebuffer to the draw framebuffer, pixel for
    /// pixel, over a rectangle of that size at the origin.
    BlitFramebuffer { width: i32, height: i32 },
    /// Gives the multisampled render target, the framebuffer it is resolved into and
    /// that framebuffer's texture storage for that many pixels, making them if need be.
    ProvisionMsaaTargets {
        render_framebuffer: FramebufferId,
        color_framebuffer: FramebufferId,
        framebuffer_texture: TextureId,
        width: i32,
        height: i32,
    },
    /// Compiles one of the fixed sources into a shader object.
    CompileShader(ShaderSource),
    /// Links the program of a pipeline from two compiled shaders. The player then asks
    /// the driver where the program's uniforms and attributes are.
    LinkProgram { pipeline: Pipeline, vertex: ShaderSource, fragment: ShaderSource },
    UseProgram(Pipeline),
    UniformMatrix4 { location: u32, value: Mat4 },
    /// A 3x3 matrix, row by row as it is stored, not transposed.
    UniformMatrix3 { location: u32, value: [[Scalar; 3]; 3] },
    /// A multiply color in 256ths.
    UniformMultColor { location: u32, value: ColorUnits },
    /// An add color in 255ths.
    UniformAddColor { location: u32, value: ColorUnits },
    Uniform1i { location: u32, value: i32 },
    /// A gradient's focal point in 12800ths.
    UniformFocalPoint { location: u32, value: i32 },
    /// The positions of a gradient's stops.
    UniformGradientRatios { location: u32, stops: [GradientStop; 15] },
    /// The colors of a gradient's stops, each in its space.
    UniformGradientColors { location: u32, stops: [GradientStop; 15] },
    CreateVertexArray(VertexArrayId),
    BindVertexArray(Option<VertexArrayId>),
    DeleteVertexArray(VertexArrayId),
    CreateBuffer(BufferId),
    BindBuffer { target: BufferTarget, buffer: BufferId },
    /// Fills the buffer bound to `target` with a byte string, for static drawing.
    BufferData { target: BufferTarget, blob: usize },
    DeleteBuffer(BufferId),
    VertexAttribPointer {
        index: u32,
        size: i32,
        kind: AttribKind,
        normalized: bool,
        stride: i32,
        offset: i32,
    },
    EnableVertexAttribArray(u32),
    DisableVertexAttribArray(u32),
    CreateTexture(TextureId),
    /// Binds a 2D texture.
    BindTexture(TextureId),
    DeleteTexture(TextureId),
    /// Selects a texture unit by its number.
    ActiveTexture(u32),
    /// Gives the bound 2D texture its size, its format and its pixels from a byte string:
    /// 8 bits per channel, level 0, no border.
    TexImage2D { format: PixelFormat, width: u32, height: u32, blob: usize },
    TexParameter { param: TextureParam, value: TextureValue },
    /// Draws `count` 32-bit indices from the start of the bound element buffer.
    DrawElements { mode: Primitive, count: i32 },
}

/// A list of driver calls with the byte strings they hand over.
#[derive(Debug)]
pub struct GlBatch {
    pub commands: Vec<GlCommand>,
    pub blobs: Vec<Vec<u8>>,
}

impl GlBatch {
    /// Byte string `i` of the batch.
    pub open spec fn blob(&self, i: int) -> Seq<u8> {
        self.blobs@[i]@
    }

    /// A batch with no call in it.
    pub fn new() -> (batch: GlBatch)
        ensures
            batch.commands@.len() == 0,
            batch.blobs@.len() == 0,
    {
        GlBatch { commands: Vec::new(), blobs: Vec::new() }
    }
}

} // verus!
