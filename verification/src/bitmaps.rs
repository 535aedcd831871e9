//! The bitmap registry: textures made from pixel buffers and named by handles that are
//! counted. The texture of a bitmap is deleted when the last reference to the bitmap is
//! given up and no shape draws with it any more, not before and not after.

use vstd::prelude::*;
use crate::arena::{can_retain, is_last, released, retained, Entry};
use crate::backend::GlowRenderBackend;
use crate::gl::{GlBatch, GlCommand, PixelFormat, TextureId, TextureParam, TextureValue};
use crate::mesh::BitmapHandle;
use crate::render::RegistryData;

verus! {

/// The formats pixels come in.
#[derive(Clone, Copy, Debug, PartialEq, Eq, Structural)]
pub enum BitmapFormat {
    Rgb,
    Rgba,
    Yuv420p,
    Yuva420p,
}

/// A failure of the bitmap registry.
#[derive(Clone, Copy, Debug, PartialEq, Eq)]
pub enum BitmapError {
    /// The pixel buffer is not that of an image of the stated size and format.
    InvalidSize,
    /// The handle names no bitmap.
    UnknownHandle,
    /// There is no identifier left for one more texture.
    UnableToCreateTexture,
    /// There is no identifier left for one more buffer.
    UnableToCreateBuffer,
    /// The backend does not do this.
    Unimplemented(&'static str),
    /// The backend does not stream textures in at that many levels.
    UnimplementedStreamingLevels(u32),
}

/// Tightly packed pixels: `height` rows of `width` pixels, no padding between rows.
#[derive(Debug, PartialEq, Eq)]
pub struct Bitmap {
    pub format: PixelFormat,
    pub width: u32,
    pub height: u32,
    pub data: Vec<u8>,
}

/// The bytes of one pixel.
pub open spec fn channels(format: PixelFormat) -> int {
    match format {
        PixelFormat::Rgb => 3,
        PixelFormat::Rgba => 4,
    }
}

/// The layout in which pixels of `format` are handed to the GPU: those without alpha as
/// RGB, those with alpha as RGBA.
pub open spec fn texture_format_of(format: BitmapFormat) -> PixelFormat {
    match format {
        BitmapFormat::Rgb | BitmapFormat::Yuv420p => PixelFormat::Rgb,
        BitmapFormat::Rgba | BitmapFormat::Yuva420p => PixelFormat::Rgba,
    }
}

/// The layout in which pixels of `format` are handed to the GPU.
pub fn texture_format(format: BitmapFormat) -> (layout: PixelFormat)
    ensures
        layout == texture_format_of(format),
{
    match format {
        BitmapFormat::Rgb | BitmapFormat::Yuv420p => PixelFormat::Rgb,
        BitmapFormat::Rgba | BitmapFormat::Yuva420p => PixelFormat::Rgba,
    }
}

impl Bitmap {
    /// The buffer holds exactly the pixels of the image.
    pub open spec fn packed(&self) -> bool {
        self.data@.len() == self.width * self.height * channels(self.format)
    }

    /// Whether the buffer holds exactly the pixels of the image.
    pub fn is_packed(&self) -> (ok: bool)
        ensures
            ok == self.packed(),
    {
        let per_pixel: u128 = match self.format {
            PixelFormat::Rgb => 3,
            PixelFormat::Rgba => 4,
        };
        let width = self.width as u128;
        let height = self.height as u128;
        assert(width * height <= 0xffff_ffff * 0xffff_ffff) by (nonlinear_arith)
            requires
                0 <= width <= 0xffff_ffff,
                0 <= height <= 0xffff_ffff,
        ;
        let pixels: u128 = width * height;
        let bytes: u128 = pixels * per_pixel;
        assert(bytes == self.width * self.height * channels(self.format)) by (nonlinear_arith)
            requires
                bytes == pixels * per_pixel,
                pixels == width * height,
                width == self.width,
                height == self.height,
                per_pixel == channels(self.format),
        ;
        self.data.len() as u128 == bytes
    }
}

/// The calls that set the sampling every texture starts with: clamped to its edge both
/// ways, filtered linearly both ways. A texture whose sides are not powers of two would
/// be unusable otherwise.
pub open spec fn baseline_sampling() -> Seq<GlCommand> {
    seq![
        GlCommand::TexParameter { param: TextureParam::WrapS, value: TextureValue::ClampToEdge },
        GlCommand::TexParameter { param: TextureParam::WrapT, value: TextureValue::ClampToEdge },
        GlCommand::TexParameter { param: TextureParam::MinFilter, value: TextureValue::Linear },
        GlCommand::TexParameter { param: TextureParam::MagFilter, value: TextureValue::Linear },
    ]
}

/// The calls that make a texture from the first byte string of their batch.
pub open spec fn register_commands(
    texture: TextureId,
    format: PixelFormat,
    width: u32,
    height: u32,
) -> Seq<GlCommand> {
    seq![
        GlCommand::CreateTexture(texture),
        GlCommand::BindTexture(texture),
        GlCommand::TexImage2D { format, width, height, blob: 0 },
    ] + baseline_sampling()
}

/// The calls that give a texture new pixels from the first byte string of their batch.
pub open spec fn update_commands(
    texture: TextureId,
    format: PixelFormat,
    width: u32,
    height: u32,
) -> Seq<GlCommand> {
    seq![GlCommand::BindTexture(texture), GlCommand::TexImage2D { format, width, height, blob: 0 }]
}

/// The calls that make a texture without pixels.
pub open spec fn empty_texture_commands(texture: TextureId) -> Seq<GlCommand> {
    seq![GlCommand::CreateTexture(texture), GlCommand::BindTexture(texture)] + baseline_sampling()
}

/// Adds the calls of the baseline sampling to `out`.
fn push_baseline_sampling(out: &mut Vec<GlCommand>)
    ensures
        final(out)@ == old(out)@ + baseline_sampling(),
{
    out.push(GlCommand::TexParameter { param: TextureParam::WrapS, value: TextureValue::ClampToEdge });
    out.push(GlCommand::TexParameter { param: TextureParam::WrapT, value: TextureValue::ClampToEdge });
    out.push(GlCommand::TexParameter { param: TextureParam::MinFilter, value: TextureValue::Linear });
    out.push(GlCommand::TexParameter { param: TextureParam::MagFilter, value: TextureValue::Linear });
    assert(out@ =~= old(out)@ + baseline_sampling());
}

impl GlowRenderBackend {
    /// Everything but the bitmap registry and the next identifier is as it is in
    /// `before`.
    pub open spec fn same_but_bitmaps(&self, before: &GlowRenderBackend) -> bool {
        &&& self.msaa_buffers == before.msaa_buffers
        &&& self.programs == before.programs
        &&& self.color_quad_draws == before.color_quad_draws
        &&& self.bitmap_quad_draws == before.bitmap_quad_draws
        &&& self.state == before.state
        &&& self.is_transparent == before.is_transparent
        &&& self.blend_modes == before.blend_modes
        &&& self.renderbuffer_width == before.renderbuffer_width
        &&& self.renderbuffer_height == before.renderbuffer_height
        &&& self.view_matrix == before.view_matrix
        &&& self.viewport_scale_factor == before.viewport_scale_factor
        &&& self.shapes == before.shapes
    }

    /// Makes a texture of `bitmap` and registers it under a new handle, with one
    /// reference. The calls for it come back with the pixels as their byte string.
    ///
    /// A buffer that is not that of the image is refused with `InvalidSize`; with no
    /// identifier left the answer is `UnableToCreateTexture`. Nothing changes then.
    pub fn register_bitmap(&mut self, bitmap: Bitmap) -> (made: Result<
        (BitmapHandle, GlBatch),
        BitmapError,
    >)
        requires
            old(self).wf(),
        ensures
            !bitmap.packed() ==> made == Err::<(BitmapHandle, GlBatch), BitmapError>(
                BitmapError::InvalidSize,
            ),
            bitmap.packed() && old(self).next_id == u64::MAX ==> made == Err::<
                (BitmapHandle, GlBatch),
                BitmapError,
            >(BitmapError::UnableToCreateTexture),
            made.is_ok() <==> bitmap.packed() && old(self).next_id < u64::MAX,
            made.is_err() ==> final(self).bitmaps == old(self).bitmaps,
            made.is_err() ==> final(self).next_id == old(self).next_id,
            made matches Ok((handle, batch)) ==> {
                &&& !old(self).bitmaps@.dom().contains(handle.0)
                &&& final(self).bitmaps@ == old(self).bitmaps@.insert(
                    handle.0,
                    Entry {
                        value: RegistryData {
                            width: bitmap.width,
                            height: bitmap.height,
                            texture: TextureId(old(self).next_id),
                        },
                        refs: 1,
                        pins: 0,
                    },
                )
                &&& final(self).next_id == old(self).next_id + 1
                &&& batch.commands@ == register_commands(
                    TextureId(old(self).next_id),
                    bitmap.format,
                    bitmap.width,
                    bitmap.height,
                )
                &&& batch.blobs@.len() == 1
                &&& batch.blob(0) == bitmap.data@
            },
            final(self).same_but_bitmaps(old(self)),
            final(self).wf(),
    {
        if !bitmap.is_packed() {
            return Err(BitmapError::InvalidSize);
        }
        if self.next_id == u64::MAX {
            return Err(BitmapError::UnableToCreateTexture);
        }
        let texture = TextureId(self.next_id);
        self.next_id = self.next_id + 1;
        let mut batch = GlBatch::new();
        batch.commands.push(GlCommand::CreateTexture(texture));
        batch.commands.push(GlCommand::BindTexture(texture));
        batch.commands.push(
            GlCommand::TexImage2D {
                format: bitmap.format,
                width: bitmap.width,
                height: bitmap.height,
                blob: 0,
            },
        );
        push_baseline_sampling(&mut batch.commands);
        let data = RegistryData { width: bitmap.width, height: bitmap.height, texture };
        batch.blobs.push(bitmap.data);
        let handle = self.bitmaps.insert(data);
        assert(batch.commands@ =~= register_commands(
            texture,
            bitmap.format,
            bitmap.width,
            bitmap.height,
        ));
        Ok((BitmapHandle(handle), batch))
    }

    /// Gives the texture of the bitmap that `handle` names the pixels of `bitmap`. The
    /// handle and the texture stay the same, and so does the size the bitmap was
    /// registered with.
    ///
    /// A buffer that is not that of the image is refused with `InvalidSize`, a handle
    /// that names no bitmap with `UnknownHandle`.
    pub fn update_texture(&mut self, handle: &BitmapHandle, bitmap: Bitmap) -> (made: Result<
        GlBatch,
        BitmapError,
    >)
        requires
            old(self).wf(),
        ensures
            !old(self).bitmaps@.dom().contains(handle.0) ==> made == Err::<GlBatch, BitmapError>(
                BitmapError::UnknownHandle,
            ),
            old(self).bitmaps@.dom().contains(handle.0) && !bitmap.packed() ==> made == Err::<
                GlBatch,
                BitmapError,
            >(BitmapError::InvalidSize),
            made.is_ok() <==> old(self).bitmaps@.dom().contains(handle.0) && bitmap.packed(),
            made matches Ok(batch) ==> {
                &&& batch.commands@ == update_commands(
                    old(self).bitmaps@[handle.0].value.texture,
                    bitmap.format,
                    bitmap.width,
                    bitmap.height,
                )
                &&& batch.blobs@.len() == 1
                &&& batch.blob(0) == bitmap.data@
            },
            final(self).bitmaps == old(self).bitmaps,
            final(self).next_id == old(self).next_id,
            final(self).same_but_bitmaps(old(self)),
            final(self).wf(),
    {
        let texture = match self.bitmaps.get(handle.0) {
            Some(entry) => entry.texture,
            None => {
                return Err(BitmapError::UnknownHandle);
            },
        };
        if !bitmap.is_packed() {
            return Err(BitmapError::InvalidSize);
        }
        let mut batch = GlBatch::new();
        batch.commands.push(GlCommand::BindTexture(texture));
        batch.commands.push(
            GlCommand::TexImage2D {
                format: bitmap.format,
                width: bitmap.width,
                height: bitmap.height,
                blob: 0,
            },
        );
        batch.blobs.push(bitmap.data);
        Ok(batch)
    }

    /// Makes a texture without pixels, to be rendered into, and registers it under a
    /// new handle with one reference.
    ///
    /// With no identifier left the answer is `UnableToCreateTexture`, and nothing
    /// changes.
    pub fn create_empty_texture(&mut self, width: u32, height: u32) -> (made: Result<
        (BitmapHandle, Vec<GlCommand>),
        BitmapError,
    >)
        requires
            old(self).wf(),
        ensures
            old(self).next_id == u64::MAX ==> made == Err::<
                (BitmapHandle, Vec<GlCommand>),
                BitmapError,
            >(BitmapError::UnableToCreateTexture),
            made.is_ok() <==> old(self).next_id < u64::MAX,
            made.is_err() ==> final(self).bitmaps == old(self).bitmaps,
            made.is_err() ==> final(self).next_id == old(self).next_id,
            made matches Ok((handle, out)) ==> {
                &&& !old(self).bitmaps@.dom().contains(handle.0)
                &&& final(self).bitmaps@ == old(self).bitmaps@.insert(
                    handle.0,
                    Entry {
                        value: RegistryData { width, height, texture: TextureId(old(self).next_id) },
                        refs: 1,
                        pins: 0,
                    },
                )
                &&& final(self).next_id == old(self).next_id + 1
                &&& out@ == empty_texture_commands(TextureId(old(self).next_id))
            },
            final(self).same_but_bitmaps(old(self)),
            final(self).wf(),
    {
        if self.next_id == u64::MAX {
            return Err(BitmapError::UnableToCreateTexture);
        }
        let texture = TextureId(self.next_id);
        self.next_id = self.next_id + 1;
        let mut out = Vec::new();
        out.push(GlCommand::CreateTexture(texture));
        out.push(GlCommand::BindTexture(texture));
        push_baseline_sampling(&mut out);
        let handle = self.bitmaps.insert(RegistryData { width, height, texture });
        assert(out@ =~= empty_texture_commands(texture));
        Ok((BitmapHandle(handle), out))
    }

    /// Takes the driver's answer to the upload of a bitmap that was just registered. If
    /// the upload was done the bitmap stays and its handle comes back. If the driver
    /// refused it, the reference to the bitmap is given up and the answer is
    /// `UnableToCreateTexture`. The calls that clean up come back as well.
    pub fn settle_bitmap(&mut self, handle: BitmapHandle, uploaded: bool) -> (made: (
        Result<BitmapHandle, BitmapError>,
        Vec<GlCommand>,
    ))
        requires
            old(self).wf(),
        ensures
            uploaded ==> {
                &&& made.0 == Ok::<BitmapHandle, BitmapError>(handle)
                &&& made.1@.len() == 0
                &&& final(self).bitmaps == old(self).bitmaps
            },
            !uploaded ==> {
                &&& made.0 == Err::<BitmapHandle, BitmapError>(BitmapError::UnableToCreateTexture)
                &&& made.1@ == release_bitmap_commands(old(self).bitmaps@, handle)
                &&& final(self).bitmaps@ == released(old(self).bitmaps@, handle.0)
            },
            final(self).next_id == old(self).next_id,
            final(self).same_but_bitmaps(old(self)),
            final(self).wf(),
    {
        if uploaded {
            return (Ok(handle), Vec::new());
        }
        let out = self.release_bitmap(handle);
        (Err(BitmapError::UnableToCreateTexture), out)
    }

    /// The size and the texture of the bitmap that `handle` names, if it names one.
    pub fn bitmap_data(&self, handle: BitmapHandle) -> (found: Option<RegistryData>)
        requires
            self.wf(),
        ensures
            found.is_some() <==> self.bitmaps@.dom().contains(handle.0),
            found matches Some(data) ==> data == self.bitmaps@[handle.0].value,
    {
        match self.bitmaps.get(handle.0) {
            Some(entry) => Some(*entry),
            None => None,
        }
    }

    /// Counts one more reference to the bitmap that `handle` names, and says whether it
    /// did: not if the handle names no bitmap.
    pub fn retain_bitmap(&mut self, handle: BitmapHandle) -> (done: bool)
        requires
            old(self).wf(),
        ensures
            done == can_retain(old(self).bitmaps@, handle.0),
            final(self).bitmaps@ == retained(old(self).bitmaps@, handle.0),
            final(self).next_id == old(self).next_id,
            final(self).same_but_bitmaps(old(self)),
            final(self).wf(),
    {
        self.bitmaps.retain(handle.0)
    }

    /// Gives up one reference to the bitmap that `handle` names. With the last
    /// reference to a bitmap that no shape draws with, the handle names nothing any
    /// more, and the call that deletes the texture is handed back. In every other case
    /// no call is.
    pub fn release_bitmap(&mut self, handle: BitmapHandle) -> (out: Vec<GlCommand>)
        requires
            old(self).wf(),
        ensures
            final(self).bitmaps@ == released(old(self).bitmaps@, handle.0),
            out@ == release_bitmap_commands(old(self).bitmaps@, handle),
            final(self).next_id == old(self).next_id,
            final(self).same_but_bitmaps(old(self)),
            final(self).wf(),
    {
        let mut out = Vec::new();
        if let Some(data) = self.bitmaps.release(handle.0) {
            out.push(GlCommand::DeleteTexture(data.texture));
        }
        out
    }
}

/// The calls that giving up one reference to a bitmap asks for: the texture is deleted
/// with the last reference to a bitmap that nothing else holds, and only then.
pub open spec fn release_bitmap_commands(
    bitmaps: Map<crate::arena::Handle, Entry<RegistryData>>,
    handle: BitmapHandle,
) -> Seq<GlCommand> {
    if is_last(bitmaps, handle.0) {
        seq![GlCommand::DeleteTexture(bitmaps[handle.0].value.texture)]
    } else {
        seq![]
    }
}

/// Once the last reference to a bitmap that no shape draws with is given up, its handle
/// names nothing, so that giving it up again deletes nothing: a texture is deleted once.
pub proof fn lemma_texture_deleted_once(
    bitmaps: Map<crate::arena::Handle, Entry<RegistryData>>,
    handle: BitmapHandle,
)
    requires
        is_last(bitmaps, handle.0),
    ensures
        !released(bitmaps, handle.0).dom().contains(handle.0),
        release_bitmap_commands(released(bitmaps, handle.0), handle) == Seq::<GlCommand>::empty(),
        released(released(bitmaps, handle.0), handle.0) == released(bitmaps, handle.0),
{
}

/// While a bitmap is held by more than a single reference, giving a reference up
/// deletes nothing and the handle goes on naming the bitmap.
pub proof fn lemma_texture_kept_while_shared(
    bitmaps: Map<crate::arena::Handle, Entry<RegistryData>>,
    handle: BitmapHandle,
)
    requires
        bitmaps.dom().contains(handle.0),
        bitmaps[handle.0].refs > 1 || bitmaps[handle.0].pins > 0,
    ensures
        released(bitmaps, handle.0).dom().contains(handle.0),
        released(bitmaps, handle.0)[handle.0].value == bitmaps[handle.0].value,
        release_bitmap_commands(bitmaps, handle) == Seq::<GlCommand>::empty(),
{
}

/// The texture that is deleted with a bitmap is the texture of no bitmap that stays:
/// every bitmap has a texture of its own.
pub proof fn lemma_deleted_texture_is_unshared(
    backend: &GlowRenderBackend,
    handle: BitmapHandle,
    other: BitmapHandle,
)
    requires
        backend.wf(),
        is_last(backend.bitmaps@, handle.0),
        released(backend.bitmaps@, handle.0).dom().contains(other.0),
    ensures
        released(backend.bitmaps@, handle.0)[other.0].value.texture
            != backend.bitmaps@[handle.0].value.texture,
{
    assert(backend.bitmaps@.dom().contains(other.0));
    assert(other.0 != handle.0);
}

} // verus!
