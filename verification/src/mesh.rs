//! Shape geometry on its way to the GPU: the vertex layout, the draws of a registered
//! shape, and the calls that upload one draw's buffers and bind its attributes.

use vstd::prelude::*;
use crate::arena::Handle;
use crate::bytes::{is_memory_image, words_as_bytes};
use crate::gl::{
    AttribKind, BufferId, BufferTarget, GlBatch, GlCommand, Pipeline, Rgba8, Scalar, VertexArrayId,
    ONE_BITS, ZERO_BITS,
};
use crate::gradient::{Gradient, TessGradient};
use crate::shader::{ShaderProgram, NO_ATTRIBUTE, NUM_VERTEX_ATTRIBUTES};

verus! {

/// The name of a registered bitmap.
#[derive(Clone, Copy, Debug, PartialEq, Eq, Structural)]
pub struct BitmapHandle(pub Handle);

/// The name of a registered shape.
#[derive(Clone, Copy, Debug, PartialEq, Eq, Structural)]
pub struct ShapeHandle(pub Handle);

/// A vertex as the tessellator hands it over.
#[derive(Clone, Copy, Debug, PartialEq, Eq, Structural)]
pub struct TessVertex {
    pub x: Scalar,
    pub y: Scalar,
    pub color: Rgba8,
}

/// A vertex as the GPU takes it: twelve bytes, the position and then the color.
#[derive(Clone, Copy, Debug, PartialEq, Eq)]
pub struct Vertex {
    pub position: [Scalar; 2],
    pub color: u32,
}

/// The four channels of a color in one word, red in the lowest byte.
pub open spec fn packed_color(color: Rgba8) -> u32 {
    (color.r + color.g * 0x100 + color.b * 0x1_0000 + color.a * 0x100_0000) as u32
}

impl Vertex {
    /// The vertex for the GPU: the position unchanged, the color packed.
    pub fn from(vertex: TessVertex) -> (v: Vertex)
        ensures
            v.position@ == seq![vertex.x, vertex.y],
            v.color == packed_color(vertex.color),
    {
        let color: u32 = vertex.color.r as u32 + vertex.color.g as u32 * 0x100 + vertex.color.b as u32
            * 0x1_0000 + vertex.color.a as u32 * 0x100_0000;
        Vertex { position: [vertex.x, vertex.y], color }
    }
}

/// Word `k` of the vertex buffer made from `vertices`: three words per vertex, the
/// horizontal and the vertical position and the packed color.
pub open spec fn vertex_word(vertices: Seq<TessVertex>, k: int) -> u32 {
    let vertex = vertices[k / 3];
    if k % 3 == 0 {
        vertex.x.bits
    } else if k % 3 == 1 {
        vertex.y.bits
    } else {
        packed_color(vertex.color)
    }
}

/// The words of the vertex buffer made from `vertices`.
pub open spec fn vertex_words(vertices: Seq<TessVertex>) -> Seq<u32> {
    Seq::new(3 * vertices.len(), |k: int| vertex_word(vertices, k))
}

/// The words of the vertex buffer made from `vertices`.
pub fn vertex_buffer_words(vertices: &Vec<TessVertex>) -> (words: Vec<u32>)
    ensures
        words@ == vertex_words(vertices@),
{
    let mut words: Vec<u32> = Vec::new();
    let mut i: usize = 0;
    while i < vertices.len()
        invariant
            i <= vertices.len(),
            words@.len() == 3 * i,
            forall|k: int| 0 <= k < 3 * i ==> #[trigger] words@[k] == vertex_word(vertices@, k),
        decreases vertices.len() - i,
    {
        let vertex = Vertex::from(vertices[i]);
        words.push(vertex.position[0].bits);
        words.push(vertex.position[1].bits);
        words.push(vertex.color);
        i = i + 1;
    }
    assert(words@ =~= vertex_words(vertices@));
    words
}

/// A bitmap fill as the tessellator hands it over, its bitmap already looked up.
#[derive(Clone, Copy, Debug, PartialEq, Eq)]
pub struct TessBitmap {
    pub matrix: [[Scalar; 3]; 3],
    pub handle: Option<BitmapHandle>,
    pub is_smoothed: bool,
    pub is_repeating: bool,
}

/// What a tessellated draw is filled with.
#[derive(Clone, Debug, PartialEq, Eq)]
pub enum TessDrawType {
    Color,
    Gradient { matrix: [[Scalar; 3]; 3], gradient: TessGradient },
    Bitmap(TessBitmap),
}

/// One draw of a tessellated shape. The first `mask_index_count` indices are the fill
/// without its strokes, which is what a mask is made of.
#[derive(Clone, Debug, PartialEq, Eq)]
pub struct TessDraw {
    pub draw_type: TessDrawType,
    pub vertices: Vec<TessVertex>,
    pub indices: Vec<u32>,
    pub mask_index_count: u32,
}

impl TessDraw {
    /// The GPU can take the draw: its indices can be counted in an `i32` and its mask
    /// indices are among them.
    pub open spec fn drawable(&self) -> bool {
        self.indices@.len() <= i32::MAX && self.mask_index_count <= self.indices@.len()
    }

    /// Whether the GPU can take the draw.
    pub fn is_drawable(&self) -> (ok: bool)
        ensures
            ok == self.drawable(),
    {
        self.indices.len() <= 0x7fff_ffff && self.mask_index_count as usize <= self.indices.len()
    }

    /// The pipeline that draws the fill.
    pub open spec fn pipeline(&self) -> Pipeline {
        match self.draw_type {
            TessDrawType::Color => Pipeline::Color,
            TessDrawType::Gradient { .. } => Pipeline::Gradient,
            TessDrawType::Bitmap(_) => Pipeline::Bitmap,
        }
    }
}

/// A bitmap fill of a registered draw.
#[derive(Clone, Copy, Debug, PartialEq, Eq)]
pub struct BitmapDraw {
    pub matrix: [[Scalar; 3]; 3],
    pub handle: Option<BitmapHandle>,
    pub is_repeating: bool,
    pub is_smoothed: bool,
}

/// What a registered draw is filled with.
#[derive(Clone, Copy, Debug, PartialEq, Eq)]
pub enum DrawType {
    Color,
    Gradient(Gradient),
    Bitmap(BitmapDraw),
}

/// One GPU-drawable primitive of a registered shape.
#[derive(Clone, Copy, Debug, PartialEq, Eq)]
pub struct Draw {
    pub draw_type: DrawType,
    pub vertex_buffer: BufferId,
    pub index_buffer: BufferId,
    pub vao: VertexArrayId,
    pub num_indices: i32,
    pub num_mask_indices: i32,
}

impl Draw {
    /// The mask indices are among the indices.
    pub open spec fn wf(self) -> bool {
        &&& 0 <= self.num_mask_indices <= self.num_indices
        &&& self.draw_type matches DrawType::Gradient(gradient) ==> gradient.wf()
    }

    /// The pipeline that draws the fill.
    pub open spec fn pipeline(self) -> Pipeline {
        match self.draw_type {
            DrawType::Color => Pipeline::Color,
            DrawType::Gradient(_) => Pipeline::Gradient,
            DrawType::Bitmap(_) => Pipeline::Bitmap,
        }
    }
}

/// The draws of a registered shape.
#[derive(Debug)]
pub struct Mesh {
    pub draws: Vec<Draw>,
}

/// The bytes between two vertices of a vertex buffer.
pub const VERTEX_STRIDE: i32 = 12;

/// Where in a vertex the color starts.
pub const COLOR_OFFSET: i32 = 8;

/// The calls that point the attributes of `program` into the bound vertex buffer and
/// switch them on: the position as two unnormalized numbers at the start of a vertex,
/// the color as four normalized bytes behind it. An attribute the program does not have
/// is passed over.
pub open spec fn attribute_commands(program: ShaderProgram) -> Seq<GlCommand> {
    (if program.vertex_position_location != NO_ATTRIBUTE {
        seq![
            GlCommand::VertexAttribPointer {
                index: program.vertex_position_location,
                size: 2,
                kind: AttribKind::Float,
                normalized: false,
                stride: VERTEX_STRIDE,
                offset: 0,
            },
            GlCommand::EnableVertexAttribArray(program.vertex_position_location),
        ]
    } else {
        seq![]
    }) + (if program.vertex_color_location != NO_ATTRIBUTE {
        seq![
            GlCommand::VertexAttribPointer {
                index: program.vertex_color_location,
                size: 4,
                kind: AttribKind::UnsignedByte,
                normalized: true,
                stride: VERTEX_STRIDE,
                offset: COLOR_OFFSET,
            },
            GlCommand::EnableVertexAttribArray(program.vertex_color_location),
        ]
    } else {
        seq![]
    })
}

/// The calls that switch off the attribute slots past those `program` has.
pub open spec fn disable_commands(program: ShaderProgram) -> Seq<GlCommand> {
    if program.num_vertex_attributes == 0 {
        seq![GlCommand::DisableVertexAttribArray(0), GlCommand::DisableVertexAttribArray(1)]
    } else if program.num_vertex_attributes == 1 {
        seq![GlCommand::DisableVertexAttribArray(1)]
    } else {
        seq![]
    }
}

/// The vertex array of the draw that takes its three identifiers from `first` on.
pub open spec fn vao_at(first: u64) -> VertexArrayId {
    VertexArrayId(first)
}

/// The vertex buffer of that draw.
pub open spec fn vertex_buffer_at(first: u64) -> BufferId {
    BufferId((first + 1) as u64)
}

/// The index buffer of that draw.
pub open spec fn index_buffer_at(first: u64) -> BufferId {
    BufferId((first + 2) as u64)
}

/// The calls that bring one draw onto the GPU: a vertex array is made and bound, a
/// vertex and an index buffer are made, bound and filled from byte strings `blob` and
/// `blob + 1`, the attributes of `program` are bound, and the vertex array is unbound.
pub open spec fn upload_commands(first: u64, program: ShaderProgram, blob: int) -> Seq<GlCommand> {
    seq![
        GlCommand::CreateVertexArray(vao_at(first)),
        GlCommand::BindVertexArray(Some(vao_at(first))),
        GlCommand::CreateBuffer(vertex_buffer_at(first)),
        GlCommand::BindBuffer { target: BufferTarget::Array, buffer: vertex_buffer_at(first) },
        GlCommand::BufferData { target: BufferTarget::Array, blob: blob as usize },
        GlCommand::CreateBuffer(index_buffer_at(first)),
        GlCommand::BindBuffer { target: BufferTarget::ElementArray, buffer: index_buffer_at(first) },
        GlCommand::BufferData { target: BufferTarget::ElementArray, blob: (blob + 1) as usize },
    ] + attribute_commands(program) + seq![GlCommand::BindVertexArray(None)] + disable_commands(
        program,
    )
}

/// Adds to `batch` the calls and the two byte strings that bring one draw onto the GPU.
/// The draw's objects take the identifiers `first`, `first + 1` and `first + 2`.
pub fn upload_mesh(
    first: u64,
    program: &ShaderProgram,
    vertex_words: &Vec<u32>,
    indices: &Vec<u32>,
    batch: &mut GlBatch,
)
    requires
        first + 2 <= u64::MAX,
        program.wf(),
    ensures
        final(batch).commands@ == old(batch).commands@ + upload_commands(
            first,
            *program,
            old(batch).blobs@.len() as int,
        ),
        final(batch).blobs@.len() == old(batch).blobs@.len() + 2,
        forall|i: int|
            0 <= i < old(batch).blobs@.len() ==> #[trigger] final(batch).blobs@[i] == old(
                batch,
            ).blobs@[i],
        is_memory_image(vertex_words@, final(batch).blob(old(batch).blobs@.len() as int)),
        is_memory_image(indices@, final(batch).blob((old(batch).blobs@.len() + 1) as int)),
{
    let vao = VertexArrayId(first);
    let vertex_buffer = BufferId(first + 1);
    let index_buffer = BufferId(first + 2);
    batch.blobs.push(words_as_bytes(vertex_words));
    batch.blobs.push(words_as_bytes(indices));
    let index_blob = batch.blobs.len() - 1;
    let vertex_blob = index_blob - 1;

    batch.commands.push(GlCommand::CreateVertexArray(vao));
    batch.commands.push(GlCommand::BindVertexArray(Some(vao)));
    batch.commands.push(GlCommand::CreateBuffer(vertex_buffer));
    batch.commands.push(GlCommand::BindBuffer { target: BufferTarget::Array, buffer: vertex_buffer });
    batch.commands.push(GlCommand::BufferData { target: BufferTarget::Array, blob: vertex_blob });
    batch.commands.push(GlCommand::CreateBuffer(index_buffer));
    batch.commands.push(
        GlCommand::BindBuffer { target: BufferTarget::ElementArray, buffer: index_buffer },
    );
    batch.commands.push(
        GlCommand::BufferData { target: BufferTarget::ElementArray, blob: index_blob },
    );

    if program.vertex_position_location != NO_ATTRIBUTE {
        batch.commands.push(
            GlCommand::VertexAttribPointer {
                index: program.vertex_position_location,
                size: 2,
                kind: AttribKind::Float,
                normalized: false,
                stride: VERTEX_STRIDE,
                offset: 0,
            },
        );
        batch.commands.push(GlCommand::EnableVertexAttribArray(program.vertex_position_location));
    }
    if program.vertex_color_location != NO_ATTRIBUTE {
        batch.commands.push(
            GlCommand::VertexAttribPointer {
                index: program.vertex_color_location,
                size: 4,
                kind: AttribKind::UnsignedByte,
                normalized: true,
                stride: VERTEX_STRIDE,
                offset: COLOR_OFFSET,
            },
        );
        batch.commands.push(GlCommand::EnableVertexAttribArray(program.vertex_color_location));
    }
    batch.commands.push(GlCommand::BindVertexArray(None));
    let ghost bound = batch.commands@;
    let ghost blobs = batch.blobs;
    assert(bound + disable_commands(*program) =~= old(batch).commands@ + upload_commands(
        first,
        *program,
        vertex_blob as int,
    ));
    let mut i: u32 = program.num_vertex_attributes;
    while i < NUM_VERTEX_ATTRIBUTES
        invariant
            program.num_vertex_attributes <= i <= NUM_VERTEX_ATTRIBUTES,
            batch.blobs == blobs,
            batch.commands@ == bound + Seq::new(
                (i - program.num_vertex_attributes) as nat,
                |k: int| GlCommand::DisableVertexAttribArray((program.num_vertex_attributes + k) as u32),
            ),
        decreases NUM_VERTEX_ATTRIBUTES - i,
    {
        batch.commands.push(GlCommand::DisableVertexAttribArray(i));
        i = i + 1;
    }
    assert(batch.commands@ =~= bound + disable_commands(*program));
}

/// The identity, as a matrix of scalars.
pub open spec fn identity_matrix3() -> [[Scalar; 3]; 3] {
    [
        [Scalar { bits: ONE_BITS }, Scalar { bits: ZERO_BITS }, Scalar { bits: ZERO_BITS }],
        [Scalar { bits: ZERO_BITS }, Scalar { bits: ONE_BITS }, Scalar { bits: ZERO_BITS }],
        [Scalar { bits: ZERO_BITS }, Scalar { bits: ZERO_BITS }, Scalar { bits: ONE_BITS }],
    ]
}

} // verus!
