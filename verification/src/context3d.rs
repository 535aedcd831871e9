//! The 3D context: the objects it hands out. Its command processor is not part of this
//! library.

use vstd::prelude::*;
use crate::arena::Entry;
use crate::backend::GlowRenderBackend;
use crate::bitmaps::BitmapError;
use crate::gl::{BufferId, GlCommand, TextureId};
use crate::mesh::BitmapHandle;
use crate::render::RegistryData;

verus! {

/// The feature level a 3D context was asked for.
#[derive(Clone, Copy, Debug, PartialEq, Eq, Structural)]
pub enum Context3DProfile {
    Baseline,
    BaselineConstrained,
    BaselineExtended,
    Standard,
    StandardConstrained,
    StandardExtended,
}

/// The texture formats a movie can ask for.
#[derive(Clone, Copy, Debug, PartialEq, Eq, Structural)]
pub enum Context3DTextureFormat {
    Bgra,
    BgraPacked,
    BgrPacked,
    Compressed,
    CompressedAlpha,
    RgbaHalfFloat,
}

/// How the GPU stores a texture.
#[derive(Clone, Copy, Debug, PartialEq, Eq, Structural)]
pub enum InternalFormat {
    Rgba8,
    Rgba4,
    Rgb565,
    CompressedRgbaS3tcDxt1,
    CompressedRgbaS3tcDxt5,
    Rgba16f,
}

/// The channels of the pixels a texture is filled from. Compressed textures have none.
#[derive(Clone, Copy, Debug, PartialEq, Eq, Structural)]
pub enum DataFormat {
    Bgra,
    Bgr,
    Rgba,
    Compressed,
}

/// The component type of the pixels a texture is filled from. Compressed textures have
/// none.
#[derive(Clone, Copy, Debug, PartialEq, Eq, Structural)]
pub enum DataType {
    UnsignedShort,
    UnsignedShort4444,
    UnsignedShort565,
    HalfFloat,
    Compressed,
}

/// How often a buffer's content is going to change.
#[derive(Clone, Copy, Debug, PartialEq, Eq, Structural)]
pub enum BufferUsage {
    DynamicDraw,
    StaticDraw,
}

/// An index buffer of a 3D context.
#[derive(Clone, Copy, Debug, PartialEq, Eq, Structural)]
pub struct IndexBufferWrapper {
    pub buffer: BufferId,
    pub usage: BufferUsage,
    pub num_indices: u32,
}

/// A vertex buffer of a 3D context.
#[derive(Clone, Copy, Debug, PartialEq, Eq, Structural)]
pub struct VertexBufferWrapper {
    pub buffer: BufferId,
    pub usage: BufferUsage,
    pub num_vertices: u32,
}

/// A texture of a 3D context.
#[derive(Clone, Copy, Debug, PartialEq, Eq, Structural)]
pub struct TextureWrapper {
    pub texture: TextureId,
    pub width: u32,
    pub height: u32,
    pub internal_format: InternalFormat,
    pub format: DataFormat,
    pub target: DataType,
}

impl TextureWrapper {
    pub fn width(&self) -> (width: u32)
        ensures
            width == self.width,
    {
        self.width
    }

    pub fn height(&self) -> (height: u32)
        ensures
            height == self.height,
    {
        self.height
    }
}

/// How a texture of format `fmt` is stored, and the channels and component type of the
/// pixels it is filled from.
pub open spec fn gl_format_of(fmt: Context3DTextureFormat) -> (InternalFormat, DataFormat, DataType) {
    match fmt {
        Context3DTextureFormat::Bgra => (
            InternalFormat::Rgba8,
            DataFormat::Bgra,
            DataType::UnsignedShort,
        ),
        Context3DTextureFormat::BgraPacked => (
            InternalFormat::Rgba4,
            DataFormat::Bgra,
            DataType::UnsignedShort4444,
        ),
        Context3DTextureFormat::BgrPacked => (
            InternalFormat::Rgb565,
            DataFormat::Bgr,
            DataType::UnsignedShort565,
        ),
        Context3DTextureFormat::Compressed => (
            InternalFormat::CompressedRgbaS3tcDxt1,
            DataFormat::Compressed,
            DataType::Compressed,
        ),
        Context3DTextureFormat::CompressedAlpha => (
            InternalFormat::CompressedRgbaS3tcDxt5,
            DataFormat::Compressed,
            DataType::Compressed,
        ),
        Context3DTextureFormat::RgbaHalfFloat => (
            InternalFormat::Rgba16f,
            DataFormat::Rgba,
            DataType::HalfFloat,
        ),
    }
}

/// How a texture of format `fmt` is stored, and the channels and component type of the
/// pixels it is filled from.
pub fn context3d_texture_format_to_gl_format_and_target(fmt: Context3DTextureFormat) -> (formats: (
    InternalFormat,
    DataFormat,
    DataType,
))
    ensures
        formats == gl_format_of(fmt),
{
    match fmt {
        Context3DTextureFormat::Bgra => (
            InternalFormat::Rgba8,
            DataFormat::Bgra,
            DataType::UnsignedShort,
        ),
        Context3DTextureFormat::BgraPacked => (
            InternalFormat::Rgba4,
            DataFormat::Bgra,
            DataType::UnsignedShort4444,
        ),
        Context3DTextureFormat::BgrPacked => (
            InternalFormat::Rgb565,
            DataFormat::Bgr,
            DataType::UnsignedShort565,
        ),
        Context3DTextureFormat::Compressed => (
            InternalFormat::CompressedRgbaS3tcDxt1,
            DataFormat::Compressed,
            DataType::Compressed,
        ),
        Context3DTextureFormat::CompressedAlpha => (
            InternalFormat::CompressedRgbaS3tcDxt5,
            DataFormat::Compressed,
            DataType::Compressed,
        ),
        Context3DTextureFormat::RgbaHalfFloat => (
            InternalFormat::Rgba16f,
            DataFormat::Rgba,
            DataType::HalfFloat,
        ),
    }
}

/// The texture of that size and format whose GPU object has the identifier `id`.
pub open spec fn texture_at(
    id: u64,
    width: u32,
    height: u32,
    format: Context3DTextureFormat,
) -> TextureWrapper {
    TextureWrapper {
        texture: TextureId(id),
        width,
        height,
        internal_format: gl_format_of(format).0,
        format: gl_format_of(format).1,
        target: gl_format_of(format).2,
    }
}

/// A 3D context. It always has a bitmap to show, a placeholder of one pixel until
/// something is presented, so that whoever asks for its picture need not ask whether
/// there is one.
#[derive(Clone, Copy, Debug, PartialEq, Eq, Structural)]
pub struct GlowContext3D {
    pub profile: Context3DProfile,
    pub back_buffer_raw_texture_handle: BitmapHandle,
    pub front_buffer_raw_texture_handle: BitmapHandle,
    /// Whether the context was cleared since it was last presented.
    pub seen_clear_command: bool,
}

impl GlowContext3D {
    /// Makes a 3D context with two placeholder bitmaps of one pixel, registered with
    /// `backend`, and hands back the calls that make their textures.
    ///
    /// With fewer than two identifiers left the answer is `UnableToCreateTexture`, and
    /// nothing changes.
    pub fn new(backend: &mut GlowRenderBackend, profile: Context3DProfile) -> (made: Result<
        (GlowContext3D, Vec<GlCommand>),
        BitmapError,
    >)
        requires
            old(backend).wf(),
        ensures
            made.is_ok() <==> old(backend).next_id + 2 <= u64::MAX,
            made.is_err() ==> made == Err::<(GlowContext3D, Vec<GlCommand>), BitmapError>(
                BitmapError::UnableToCreateTexture,
            ) && final(backend).bitmaps == old(backend).bitmaps && final(backend).next_id == old(
                backend,
            ).next_id,
            made matches Ok((context, out)) ==> {
                let back = context.back_buffer_raw_texture_handle;
                let front = context.front_buffer_raw_texture_handle;
                let first = old(backend).next_id;
                &&& context.profile == profile
                &&& !context.seen_clear_command
                &&& back != front
                &&& !old(backend).bitmaps@.dom().contains(back.0)
                &&& !old(backend).bitmaps@.dom().contains(front.0)
                &&& final(backend).bitmaps@ == old(backend).bitmaps@.insert(
                    back.0,
                    Entry {
                        value: RegistryData { width: 1, height: 1, texture: TextureId(first) },
                        refs: 1,
                        pins: 0,
                    },
                ).insert(
                    front.0,
                    Entry {
                        value: RegistryData {
                            width: 1,
                            height: 1,
                            texture: TextureId((first + 1) as u64),
                        },
                        refs: 1,
                        pins: 0,
                    },
                )
                &&& final(backend).next_id == first + 2
                &&& out@ == seq![
                    GlCommand::CreateTexture(TextureId(first)),
                    GlCommand::CreateTexture(TextureId((first + 1) as u64)),
                ]
            },
            final(backend).same_but_bitmaps(old(backend)),
            final(backend).wf(),
    {
        if backend.next_id > 0xffff_ffff_ffff_ffff - 2 {
            return Err(BitmapError::UnableToCreateTexture);
        }
        let first = backend.next_id;
        let mut out = Vec::new();
        out.push(GlCommand::CreateTexture(TextureId(first)));
        let back = backend.bitmaps.insert(
            RegistryData { width: 1, height: 1, texture: TextureId(first) },
        );
        out.push(GlCommand::CreateTexture(TextureId(first + 1)));
        let front = backend.bitmaps.insert(
            RegistryData { width: 1, height: 1, texture: TextureId(first + 1) },
        );
        backend.next_id = first + 2;
        Ok(
            (
                GlowContext3D {
                    profile,
                    back_buffer_raw_texture_handle: BitmapHandle(back),
                    front_buffer_raw_texture_handle: BitmapHandle(front),
                    seen_clear_command: false,
                },
                out,
            ),
        )
    }

    pub fn profile(&self) -> (profile: Context3DProfile)
        ensures
            profile == self.profile,
    {
        self.profile
    }

    /// The bitmap that shows what the context rendered.
    pub fn bitmap_handle(&self) -> (handle: BitmapHandle)
        ensures
            handle == self.front_buffer_raw_texture_handle,
    {
        self.front_buffer_raw_texture_handle
    }

    /// Whether the context's bitmap is to be drawn with the stage: not before the
    /// context was cleared.
    pub fn should_render(&self) -> (render: bool)
        ensures
            render == self.seen_clear_command,
    {
        self.seen_clear_command
    }

    /// Makes an index buffer for `num_indices` indices and hands back the call that
    /// makes its GPU object.
    ///
    /// With no identifier left the answer is `UnableToCreateBuffer`, and nothing
    /// changes.
    pub fn create_index_buffer(
        &mut self,
        backend: &mut GlowRenderBackend,
        usage: BufferUsage,
        num_indices: u32,
    ) -> (made: Result<(IndexBufferWrapper, Vec<GlCommand>), BitmapError>)
        requires
            old(backend).wf(),
        ensures
            *final(self) == *old(self),
            made.is_ok() <==> old(backend).next_id < u64::MAX,
            made.is_err() ==> made == Err::<(IndexBufferWrapper, Vec<GlCommand>), BitmapError>(
                BitmapError::UnableToCreateBuffer,
            ) && final(backend).next_id == old(backend).next_id,
            made matches Ok((buffer, out)) ==> {
                &&& buffer == (IndexBufferWrapper {
                    buffer: BufferId(old(backend).next_id),
                    usage,
                    num_indices,
                })
                &&& out@ == seq![GlCommand::CreateBuffer(BufferId(old(backend).next_id))]
                &&& final(backend).next_id == old(backend).next_id + 1
            },
            final(backend).bitmaps == old(backend).bitmaps,
            final(backend).same_but_bitmaps(old(backend)),
            final(backend).wf(),
    {
        if backend.next_id == 0xffff_ffff_ffff_ffff {
            return Err(BitmapError::UnableToCreateBuffer);
        }
        let buffer = BufferId(backend.next_id);
        backend.next_id = backend.next_id + 1;
        let mut out = Vec::new();
        out.push(GlCommand::CreateBuffer(buffer));
        Ok((IndexBufferWrapper { buffer, usage, num_indices }, out))
    }

    /// Makes a vertex buffer for `num_vertices` vertices and hands back the call that
    /// makes its GPU object.
    ///
    /// With no identifier left the answer is `UnableToCreateBuffer`, and nothing
    /// changes.
    pub fn create_vertex_buffer(
        &mut self,
        backend: &mut GlowRenderBackend,
        usage: BufferUsage,
        num_vertices: u32,
        _data_32_per_vertex: u8,
    ) -> (made: Result<(VertexBufferWrapper, Vec<GlCommand>), BitmapError>)
        requires
            old(backend).wf(),
        ensures
            *final(self) == *old(self),
            made.is_ok() <==> old(backend).next_id < u64::MAX,
            made.is_err() ==> made == Err::<(VertexBufferWrapper, Vec<GlCommand>), BitmapError>(
                BitmapError::UnableToCreateBuffer,
            ) && final(backend).next_id == old(backend).next_id,
            made matches Ok((buffer, out)) ==> {
                &&& buffer == (VertexBufferWrapper {
                    buffer: BufferId(old(backend).next_id),
                    usage,
                    num_vertices,
                })
                &&& out@ == seq![GlCommand::CreateBuffer(BufferId(old(backend).next_id))]
                &&& final(backend).next_id == old(backend).next_id + 1
            },
            final(backend).bitmaps == old(backend).bitmaps,
            final(backend).same_but_bitmaps(old(backend)),
            final(backend).wf(),
    {
        if backend.next_id == 0xffff_ffff_ffff_ffff {
            return Err(BitmapError::UnableToCreateBuffer);
        }
        let buffer = BufferId(backend.next_id);
        backend.next_id = backend.next_id + 1;
        let mut out = Vec::new();
        out.push(GlCommand::CreateBuffer(buffer));
        Ok((VertexBufferWrapper { buffer, usage, num_vertices }, out))
    }

    /// Makes a texture of that size and format and hands back the call that makes its
    /// GPU object.
    ///
    /// Streaming levels are not implemented: any number of them but zero is refused
    /// with `UnimplementedStreamingLevels`. With no identifier left the answer is
    /// `UnableToCreateTexture`. Nothing changes then.
    pub fn create_texture(
        &mut self,
        backend: &mut GlowRenderBackend,
        width: u32,
        height: u32,
        format: Context3DTextureFormat,
        _optimize_for_render_to_texture: bool,
        streaming_levels: u32,
    ) -> (made: Result<(TextureWrapper, Vec<GlCommand>), BitmapError>)
        requires
            old(backend).wf(),
        ensures
            *final(self) == *old(self),
            streaming_levels != 0 ==> made == Err::<(TextureWrapper, Vec<GlCommand>), BitmapError>(
                BitmapError::UnimplementedStreamingLevels(streaming_levels),
            ),
            streaming_levels == 0 && old(backend).next_id == u64::MAX ==> made == Err::<
                (TextureWrapper, Vec<GlCommand>),
                BitmapError,
            >(BitmapError::UnableToCreateTexture),
            made.is_ok() <==> streaming_levels == 0 && old(backend).next_id < u64::MAX,
            made.is_err() ==> final(backend).next_id == old(backend).next_id,
            made matches Ok((texture, out)) ==> {
                &&& texture == texture_at(old(backend).next_id, width, height, format)
                &&& out@ == seq![GlCommand::CreateTexture(TextureId(old(backend).next_id))]
                &&& final(backend).next_id == old(backend).next_id + 1
            },
            final(backend).bitmaps == old(backend).bitmaps,
            final(backend).same_but_bitmaps(old(backend)),
            final(backend).wf(),
    {
        let (internal_format, data_format, target) =
            context3d_texture_format_to_gl_format_and_target(format);
        if streaming_levels != 0 {
            return Err(BitmapError::UnimplementedStreamingLevels(streaming_levels));
        }
        if backend.next_id == 0xffff_ffff_ffff_ffff {
            return Err(BitmapError::UnableToCreateTexture);
        }
        let texture = TextureId(backend.next_id);
        backend.next_id = backend.next_id + 1;
        let mut out = Vec::new();
        out.push(GlCommand::CreateTexture(texture));
        Ok(
            (
                TextureWrapper {
                    texture,
                    width,
                    height,
                    internal_format,
                    format: data_format,
                    target,
                },
                out,
            ),
        )
    }

    /// Makes a cube texture whose faces are `size` pixels a side and hands back the
    /// call that makes its GPU object.
    ///
    /// Streaming levels are not implemented: any number of them but zero is refused
    /// with `UnimplementedStreamingLevels`. With no identifier left the answer is
    /// `UnableToCreateTexture`. Nothing changes then.
    pub fn create_cube_texture(
        &mut self,
        backend: &mut GlowRenderBackend,
        size: u32,
        format: Context3DTextureFormat,
        optimize_for_render_to_texture: bool,
        streaming_levels: u32,
    ) -> (made: Result<(TextureWrapper, Vec<GlCommand>), BitmapError>)
        requires
            old(backend).wf(),
        ensures
            *final(self) == *old(self),
            streaming_levels != 0 ==> made == Err::<(TextureWrapper, Vec<GlCommand>), BitmapError>(
                BitmapError::UnimplementedStreamingLevels(streaming_levels),
            ),
            streaming_levels == 0 && old(backend).next_id == u64::MAX ==> made == Err::<
                (TextureWrapper, Vec<GlCommand>),
                BitmapError,
            >(BitmapError::UnableToCreateTexture),
            made.is_ok() <==> streaming_levels == 0 && old(backend).next_id < u64::MAX,
            made.is_err() ==> final(backend).next_id == old(backend).next_id,
            made matches Ok((texture, out)) ==> {
                &&& texture == texture_at(old(backend).next_id, size, size, format)
                &&& out@ == seq![GlCommand::CreateTexture(TextureId(old(backend).next_id))]
                &&& final(backend).next_id == old(backend).next_id + 1
            },
            final(backend).bitmaps == old(backend).bitmaps,
            final(backend).same_but_bitmaps(old(backend)),
            final(backend).wf(),
    {
        self.create_texture(
            backend,
            size,
            size,
            format,
            optimize_for_render_to_texture,
            streaming_levels,
        )
    }
}

} // verus!
