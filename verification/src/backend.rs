//! The backend: the programs, the unit quads, the registered shapes and bitmaps, the
//! viewport, and what is known of the GPU's setup.

use vstd::prelude::*;
use crate::arena::{Arena, Entry, Handle};
use crate::blend::{base_mode, blend_commands, BlendMode, BlendStack, RenderBlendMode};
use crate::bytes::is_memory_image;
use crate::error::Error;
use crate::holds::holds_counted;
use crate::gl::{
    Capability, FramebufferId, FramebufferTarget, GlBatch, GlCommand, Mat4, Pipeline, Primitive,
    Rgba8, Scalar, TextureId, ONE_BITS, ZERO_BITS,
};
use crate::mask::{stencil_commands, stencil_program, MaskState, MaskTracker};
use crate::mesh::{
    identity_matrix3, index_buffer_at, upload_commands, upload_mesh, vao_at, vertex_buffer_at,
    vertex_buffer_words, vertex_words, BitmapDraw, Draw, DrawType, Mesh, TessVertex,
};
use crate::render::{one_units, zero_units, DrawState, Programs, RegistryData};
use crate::shader::{
    set_uniform, ProgramLink, ShaderProgram, ShaderUniform, UniformValue, Vec4Value,
};

verus! {

/// The offscreen targets of multisampled rendering.
#[derive(Clone, Copy, Debug, PartialEq, Eq, Structural)]
pub struct MsaaBuffers {
    /// What a frame is rendered into.
    pub render_framebuffer: FramebufferId,
    /// What the frame is resolved into.
    pub color_framebuffer: FramebufferId,
    /// The color of the resolved frame.
    pub framebuffer_texture: TextureId,
}

/// The size of the viewport in device pixels and the scale factor of the display, a
/// double-precision number held by its 64 bits.
#[derive(Clone, Copy, Debug, PartialEq, Eq, Structural)]
pub struct ViewportDimensions {
    pub width: u32,
    pub height: u32,
    pub scale_factor: u64,
}

/// How carefully the stage is to be rendered.
#[derive(Clone, Copy, Debug, PartialEq, Eq, Structural)]
pub enum StageQuality {
    Low,
    Medium,
    High,
    Best,
    High8x8,
    High8x8Linear,
    High16x16,
    High16x16Linear,
}

/// What the driver said while the shaders were built: for each source whether a shader
/// object could be made for it, and for each pipeline what became of its program,
/// `None` if no program object could be made.
#[derive(Clone, Copy, Debug, PartialEq, Eq)]
pub struct DeviceSetup {
    pub color_vertex: bool,
    pub texture_vertex: bool,
    pub color_fragment: bool,
    pub bitmap_fragment: bool,
    pub gradient_fragment: bool,
    pub color: Option<ProgramLink>,
    pub bitmap: Option<ProgramLink>,
    pub gradient: Option<ProgramLink>,
}

impl DeviceSetup {
    /// Every shader object could be made.
    pub open spec fn has_shaders(self) -> bool {
        self.color_vertex && self.texture_vertex && self.color_fragment && self.bitmap_fragment
            && self.gradient_fragment
    }

    /// Every program object could be made.
    pub open spec fn has_programs(self) -> bool {
        self.color.is_some() && self.bitmap.is_some() && self.gradient.is_some()
    }
}

/// The bits of the double-precision number one.
pub const SCALE_FACTOR_ONE: u64 = 0x3ff0_0000_0000_0000;

/// The stencil bits a frame clears and writes.
pub const STENCIL_WRITE_MASK: u32 = 0xff;

/// The rendering backend.
#[derive(Debug)]
pub struct GlowRenderBackend {
    /// The targets of multisampled rendering, if it is switched on.
    pub msaa_buffers: Option<MsaaBuffers>,
    pub programs: Programs,
    /// The unit quad for solid rectangles and lines.
    pub color_quad_draws: Vec<Draw>,
    /// The unit quad for bitmaps.
    pub bitmap_quad_draws: Vec<Draw>,
    /// What is known of the GPU's setup.
    pub state: DrawState,
    /// Whether frames are cleared to transparent black whatever their background.
    pub is_transparent: bool,
    pub blend_modes: BlendStack,
    pub renderbuffer_width: i32,
    pub renderbuffer_height: i32,
    pub view_matrix: Mat4,
    pub viewport_scale_factor: u64,
    pub bitmaps: Arena<RegistryData>,
    pub shapes: Arena<Mesh>,
    /// The next identifier for a GPU object. Identifiers are never used twice.
    pub next_id: u64,
}

/// A side of the render buffer for a side of the viewport: at least one pixel, and no
/// more than an `i32` can count.
pub open spec fn clamp_dimension(side: u32) -> i32 {
    if side < 1 {
        1
    } else if side > i32::MAX {
        i32::MAX
    } else {
        side as i32
    }
}

/// A side of the render buffer for a side of the viewport.
pub fn clamped_dimension(side: u32) -> (clamped: i32)
    ensures
        clamped == clamp_dimension(side),
        clamped >= 1,
{
    if side < 1 {
        1
    } else if side > 0x7fff_ffff {
        0x7fff_ffff
    } else {
        side as i32
    }
}

/// The corners of the unit quad, white, counterclockwise from the origin.
pub open spec fn quad_vertices() -> Seq<TessVertex> {
    let white = Rgba8 { r: 255, g: 255, b: 255, a: 255 };
    let zero = Scalar { bits: ZERO_BITS };
    let one = Scalar { bits: ONE_BITS };
    seq![
        TessVertex { x: zero, y: zero, color: white },
        TessVertex { x: one, y: zero, color: white },
        TessVertex { x: one, y: one, color: white },
        TessVertex { x: zero, y: one, color: white },
    ]
}

/// The indices of the unit quad.
pub open spec fn quad_indices() -> Seq<u32> {
    seq![0u32, 1u32, 2u32, 3u32]
}

/// The fill of the unit quad of `pipeline`: a bitmap that is yet to be named, smoothed
/// and not repeating, for the bitmap pipeline, else a solid color.
pub open spec fn quad_draw_type(pipeline: Pipeline) -> DrawType {
    if pipeline == Pipeline::Bitmap {
        DrawType::Bitmap(
            BitmapDraw {
                matrix: identity_matrix3(),
                handle: None,
                is_repeating: false,
                is_smoothed: true,
            },
        )
    } else {
        DrawType::Color
    }
}

/// The draw of the unit quad of `pipeline` whose GPU objects take their identifiers
/// from `first` on.
pub open spec fn quad_draw(pipeline: Pipeline, first: u64) -> Draw {
    Draw {
        draw_type: quad_draw_type(pipeline),
        vertex_buffer: vertex_buffer_at(first),
        index_buffer: index_buffer_at(first),
        vao: vao_at(first),
        num_indices: 4,
        num_mask_indices: 4,
    }
}

/// The calls that see to the multisampled targets when the viewport has a new size:
/// with multisampling they are given that size, without it the framebuffer and
/// renderbuffer bindings are cleared.
pub open spec fn msaa_commands(msaa: Option<MsaaBuffers>, width: i32, height: i32) -> Seq<GlCommand> {
    match msaa {
        Some(buffers) => seq![
            GlCommand::ProvisionMsaaTargets {
                render_framebuffer: buffers.render_framebuffer,
                color_framebuffer: buffers.color_framebuffer,
                framebuffer_texture: buffers.framebuffer_texture,
                width,
                height,
            },
        ],
        None => seq![
            GlCommand::BindFramebuffer { target: FramebufferTarget::Both, framebuffer: None },
            GlCommand::UnbindRenderbuffer,
        ],
    }
}

/// The calls that start a frame: the multisampled target is bound if there is one, the
/// viewport is set, the stencil setup of "no mask" is installed, and color and stencil
/// are cleared, the color to `clear` or, for a transparent backend, to nothing.
pub open spec fn begin_frame_commands(
    msaa: Option<MsaaBuffers>,
    width: i32,
    height: i32,
    is_transparent: bool,
    clear: Rgba8,
) -> Seq<GlCommand> {
    (match msaa {
        Some(buffers) => seq![
            GlCommand::BindFramebuffer {
                target: FramebufferTarget::Both,
                framebuffer: Some(buffers.render_framebuffer),
            },
        ],
        None => seq![],
    }) + seq![GlCommand::Viewport { width, height }] + stencil_commands(
        MaskState::NoMask,
        stencil_program(MaskState::NoMask, 0),
    ) + seq![
        GlCommand::ClearColor(
            if is_transparent {
                Rgba8 { r: 0, g: 0, b: 0, a: 0 }
            } else {
                clear
            },
        ),
        GlCommand::StencilMask(STENCIL_WRITE_MASK),
        GlCommand::Clear { color: true, stencil: true },
    ]
}

/// What is known of the GPU once a frame has begun: no mask, its stencil setup
/// installed, no program in use.
pub open spec fn frame_start_state() -> DrawState {
    DrawState {
        mask: MaskTracker {
            state: MaskState::NoMask,
            depth: 0,
            programmed: Some((MaskState::NoMask, 0u32)),
        },
        active_program: None,
        world_matrix: None,
        mult_color: None,
        add_color: None,
    }
}

/// The calls that end a frame. Without multisampling there are none. With it, masking
/// is switched off, the multisampled target is resolved into the plain framebuffer, and
/// that one's texture is drawn over the whole of the default framebuffer with the
/// bitmap program, colors unchanged.
pub open spec fn end_frame_commands(
    msaa: Option<MsaaBuffers>,
    width: i32,
    height: i32,
    program: ShaderProgram,
    quad: Draw,
) -> Seq<GlCommand> {
    match msaa {
        None => seq![],
        Some(buffers) => seq![
            GlCommand::Disable(Capability::StencilTest),
            GlCommand::ColorMask(true),
            GlCommand::BindFramebuffer {
                target: FramebufferTarget::Read,
                framebuffer: Some(buffers.render_framebuffer),
            },
            GlCommand::BindFramebuffer {
                target: FramebufferTarget::Draw,
                framebuffer: Some(buffers.color_framebuffer),
            },
            GlCommand::BlitFramebuffer { width, height },
            GlCommand::BindFramebuffer { target: FramebufferTarget::Both, framebuffer: None },
            GlCommand::Viewport { width, height },
            GlCommand::UseProgram(program.pipeline),
        ] + set_uniform(
            program.spec_location(ShaderUniform::WorldMatrix),
            UniformValue::Matrix4(Mat4::ClipSpaceQuad),
        ) + set_uniform(
            program.spec_location(ShaderUniform::ViewMatrix),
            UniformValue::Matrix4(Mat4::Identity),
        ) + set_uniform(
            program.spec_location(ShaderUniform::MultColor),
            UniformValue::Vec4(Vec4Value::Mult(one_units())),
        ) + set_uniform(
            program.spec_location(ShaderUniform::AddColor),
            UniformValue::Vec4(Vec4Value::Add(zero_units())),
        ) + set_uniform(
            program.spec_location(ShaderUniform::TextureMatrix),
            UniformValue::Matrix3(identity_matrix3()),
        ) + seq![
            GlCommand::ActiveTexture(0),
            GlCommand::BindTexture(buffers.framebuffer_texture),
        ] + set_uniform(program.spec_location(ShaderUniform::BitmapTexture), UniformValue::Int(0))
            + seq![
            GlCommand::BindVertexArray(Some(quad.vao)),
            GlCommand::DrawElements { mode: Primitive::TriangleFan, count: quad.num_indices },
        ],
    }
}

/// What is known of the GPU once a frame has ended. With multisampling the end of the
/// frame went past what is kept track of, so nothing is known.
pub open spec fn frame_end_state(state: DrawState, msaa: Option<MsaaBuffers>) -> DrawState {
    match msaa {
        None => state,
        Some(_) => DrawState {
            mask: MaskTracker { state: state.mask.state, depth: state.mask.depth, programmed: None },
            active_program: None,
            world_matrix: None,
            mult_color: None,
            add_color: None,
        },
    }
}

/// Whether the GPU objects of `draw` have identifiers below `next_id`.
pub open spec fn draw_fresh(draw: Draw, next_id: u64) -> bool {
    draw.vao.0 < next_id && draw.vertex_buffer.0 < next_id && draw.index_buffer.0 < next_id
}

/// Whether every registered bitmap has a texture of its own, with an identifier below
/// `next_id`.
pub open spec fn textures_fresh(bitmaps: Map<Handle, Entry<RegistryData>>, next_id: u64) -> bool {
    &&& forall|h: Handle|
        bitmaps.dom().contains(h) ==> (#[trigger] bitmaps[h]).value.texture.0 < next_id
    &&& forall|g: Handle, h: Handle|
        bitmaps.dom().contains(g) && bitmaps.dom().contains(h) && g != h ==> (
        #[trigger] bitmaps[g]).value.texture != (#[trigger] bitmaps[h]).value.texture
}

/// Whether the GPU objects of every draw of every registered shape have identifiers
/// below `next_id`.
pub open spec fn shapes_fresh(shapes: Map<Handle, Entry<Mesh>>, next_id: u64) -> bool {
    forall|h: Handle, i: int|
        shapes.dom().contains(h) && 0 <= i < shapes[h].value.draws@.len() ==> draw_fresh(
            #[trigger] shapes[h].value.draws@[i],
            next_id,
        )
}

/// Every draw of every registered shape is well formed.
pub open spec fn shapes_wf(shapes: Map<Handle, Entry<Mesh>>) -> bool {
    forall|h: Handle, i: int|
        shapes.dom().contains(h) && 0 <= i < shapes[h].value.draws@.len() ==> (
        #[trigger] shapes[h].value.draws@[i]).wf()
}

impl GlowRenderBackend {
    /// The backend is well formed.
    pub open spec fn wf(&self) -> bool {
        self.wf_with(Seq::<Draw>::empty())
    }

    /// The programs are those of their pipelines, there is one unit quad of each kind,
    /// the mask machine and the blend stack are well formed, the render buffer has a
    /// pixel at least, every registered shape is made of well-formed draws, the pins of
    /// every bitmap are the draws that hold it, those of the registered shapes and
    /// those of `pending`, which are draws on their way into the registry, and no GPU
    /// object has an identifier that is yet to be given out.
    pub open spec fn wf_with(&self, pending: Seq<Draw>) -> bool {
        &&& self.programs.wf()
        &&& self.color_quad_draws@.len() == 1
        &&& self.color_quad_draws@[0].draw_type == DrawType::Color
        &&& self.color_quad_draws@[0].wf()
        &&& self.bitmap_quad_draws@.len() == 1
        &&& self.bitmap_quad_draws@[0].draw_type is Bitmap
        &&& self.bitmap_quad_draws@[0].wf()
        &&& self.state.mask.wf()
        &&& self.blend_modes.wf()
        &&& self.renderbuffer_width >= 1
        &&& self.renderbuffer_height >= 1
        &&& self.bitmaps.wf()
        &&& self.shapes.wf()
        &&& shapes_wf(self.shapes@)
        &&& holds_counted(self.bitmaps@, self.shapes.values(), pending)
        &&& textures_fresh(self.bitmaps@, self.next_id)
        &&& shapes_fresh(self.shapes@, self.next_id)
        &&& forall|i: int| 0 <= i < pending.len() ==> draw_fresh(#[trigger] pending[i], self.next_id)
    }

    /// Everything but what is known of the GPU's setup and the blend stack is as it is
    /// in `before`.
    pub open spec fn same_scene(&self, before: &GlowRenderBackend) -> bool {
        &&& self.msaa_buffers == before.msaa_buffers
        &&& self.programs == before.programs
        &&& self.color_quad_draws == before.color_quad_draws
        &&& self.bitmap_quad_draws == before.bitmap_quad_draws
        &&& self.is_transparent == before.is_transparent
        &&& self.renderbuffer_width == before.renderbuffer_width
        &&& self.renderbuffer_height == before.renderbuffer_height
        &&& self.view_matrix == before.view_matrix
        &&& self.viewport_scale_factor == before.viewport_scale_factor
        &&& self.bitmaps == before.bitmaps
        &&& self.shapes == before.shapes
        &&& self.next_id == before.next_id
    }

    /// The size of the render buffer and the scale factor last set.
    pub fn viewport_dimensions(&self) -> (dimensions: ViewportDimensions)
        requires
            self.wf(),
        ensures
            dimensions.width == self.renderbuffer_width,
            dimensions.height == self.renderbuffer_height,
            dimensions.scale_factor == self.viewport_scale_factor,
            dimensions.width >= 1 && dimensions.height >= 1,
    {
        ViewportDimensions {
            width: self.renderbuffer_width as u32,
            height: self.renderbuffer_height as u32,
            scale_factor: self.viewport_scale_factor,
        }
    }

    /// Adds to `out` the calls that see to the multisampled targets when the viewport
    /// has a new size.
    pub fn build_msaa_buffers(&self, out: &mut Vec<GlCommand>)
        ensures
            final(out)@ == old(out)@ + msaa_commands(
                self.msaa_buffers,
                self.renderbuffer_width,
                self.renderbuffer_height,
            ),
    {
        match self.msaa_buffers {
            Some(buffers) => {
                out.push(
                    GlCommand::ProvisionMsaaTargets {
                        render_framebuffer: buffers.render_framebuffer,
                        color_framebuffer: buffers.color_framebuffer,
                        framebuffer_texture: buffers.framebuffer_texture,
                        width: self.renderbuffer_width,
                        height: self.renderbuffer_height,
                    },
                );
            },
            None => {
                out.push(
                    GlCommand::BindFramebuffer { target: FramebufferTarget::Both, framebuffer: None },
                );
                out.push(GlCommand::UnbindRenderbuffer);
            },
        }
    }

    /// Takes the viewport's new size. The view matrix becomes the orthographic
    /// projection of that size, the render buffer gets that size held to at least one
    /// pixel a side, and the calls that resize the targets and set the GPU's viewport
    /// are handed back.
    pub fn set_viewport_dimensions(&mut self, dimensions: ViewportDimensions) -> (out: Vec<GlCommand>)
        requires
            old(self).wf(),
        ensures
            final(self).view_matrix == (Mat4::Ortho {
                width: dimensions.width,
                height: dimensions.height,
            }),
            final(self).renderbuffer_width == clamp_dimension(dimensions.width),
            final(self).renderbuffer_height == clamp_dimension(dimensions.height),
            final(self).renderbuffer_width >= 1,
            final(self).renderbuffer_height >= 1,
            final(self).viewport_scale_factor == dimensions.scale_factor,
            out@ == msaa_commands(
                old(self).msaa_buffers,
                clamp_dimension(dimensions.width),
                clamp_dimension(dimensions.height),
            ) + seq![
                GlCommand::Viewport {
                    width: clamp_dimension(dimensions.width),
                    height: clamp_dimension(dimensions.height),
                },
            ],
            final(self).msaa_buffers == old(self).msaa_buffers,
            final(self).programs == old(self).programs,
            final(self).color_quad_draws == old(self).color_quad_draws,
            final(self).bitmap_quad_draws == old(self).bitmap_quad_draws,
            final(self).state == old(self).state,
            final(self).is_transparent == old(self).is_transparent,
            final(self).blend_modes == old(self).blend_modes,
            final(self).bitmaps == old(self).bitmaps,
            final(self).shapes == old(self).shapes,
            final(self).next_id == old(self).next_id,
            final(self).wf(),
    {
        self.view_matrix = Mat4::Ortho { width: dimensions.width, height: dimensions.height };
        self.renderbuffer_width = clamped_dimension(dimensions.width);
        self.renderbuffer_height = clamped_dimension(dimensions.height);
        let mut out = Vec::new();
        self.build_msaa_buffers(&mut out);
        out.push(
            GlCommand::Viewport { width: self.renderbuffer_width, height: self.renderbuffer_height },
        );
        self.viewport_scale_factor = dimensions.scale_factor;
        out
    }

    /// Adds to `out` the calls that bring the GPU's stencil setup up to date with the
    /// mask phase, if it is not.
    pub fn set_stencil_state(&mut self, out: &mut Vec<GlCommand>)
        requires
            old(self).wf(),
        ensures
            final(self).state == (DrawState {
                mask: old(self).state.mask.flushed(),
                active_program: old(self).state.active_program,
                world_matrix: old(self).state.world_matrix,
                mult_color: old(self).state.mult_color,
                add_color: old(self).state.add_color,
            }),
            final(out)@ == old(out)@ + old(self).state.mask.flush_commands(),
            final(self).same_scene(old(self)),
            final(self).blend_modes == old(self).blend_modes,
            final(self).wf(),
    {
        self.state.mask.flush(out);
    }

    /// Starts a frame: what is known of the GPU is forgotten, every mask is closed, and
    /// the calls that set the GPU up for the frame and clear it are handed back.
    pub fn begin_frame(&mut self, clear: Rgba8) -> (out: Vec<GlCommand>)
        requires
            old(self).wf(),
        ensures
            final(self).state == frame_start_state(),
            out@ == begin_frame_commands(
                old(self).msaa_buffers,
                old(self).renderbuffer_width,
                old(self).renderbuffer_height,
                old(self).is_transparent,
                clear,
            ),
            final(self).same_scene(old(self)),
            final(self).blend_modes == old(self).blend_modes,
            final(self).wf(),
    {
        let mut out = Vec::new();
        self.state.active_program = None;
        self.state.mask.reset();
        self.state.world_matrix = None;
        self.state.mult_color = None;
        self.state.add_color = None;
        if let Some(buffers) = self.msaa_buffers {
            out.push(
                GlCommand::BindFramebuffer {
                    target: FramebufferTarget::Both,
                    framebuffer: Some(buffers.render_framebuffer),
                },
            );
        }
        out.push(
            GlCommand::Viewport { width: self.renderbuffer_width, height: self.renderbuffer_height },
        );
        self.set_stencil_state(&mut out);
        if self.is_transparent {
            out.push(GlCommand::ClearColor(Rgba8 { r: 0, g: 0, b: 0, a: 0 }));
        } else {
            out.push(GlCommand::ClearColor(clear));
        }
        out.push(GlCommand::StencilMask(STENCIL_WRITE_MASK));
        out.push(GlCommand::Clear { color: true, stencil: true });
        assert(out@ =~= begin_frame_commands(
            old(self).msaa_buffers,
            old(self).renderbuffer_width,
            old(self).renderbuffer_height,
            old(self).is_transparent,
            clear,
        ));
        out
    }

    /// Ends a frame. With multisampling the frame is resolved and drawn to the default
    /// framebuffer; the calls for it are handed back.
    pub fn end_frame(&mut self) -> (out: Vec<GlCommand>)
        requires
            old(self).wf(),
        ensures
            final(self).state == frame_end_state(old(self).state, old(self).msaa_buffers),
            out@ == end_frame_commands(
                old(self).msaa_buffers,
                old(self).renderbuffer_width,
                old(self).renderbuffer_height,
                old(self).programs.bitmap,
                old(self).bitmap_quad_draws@[0],
            ),
            final(self).same_scene(old(self)),
            final(self).blend_modes == old(self).blend_modes,
            final(self).wf(),
    {
        let mut out = Vec::new();
        if let Some(buffers) = self.msaa_buffers {
            out.push(GlCommand::Disable(Capability::StencilTest));
            out.push(GlCommand::ColorMask(true));
            out.push(
                GlCommand::BindFramebuffer {
                    target: FramebufferTarget::Read,
                    framebuffer: Some(buffers.render_framebuffer),
                },
            );
            out.push(
                GlCommand::BindFramebuffer {
                    target: FramebufferTarget::Draw,
                    framebuffer: Some(buffers.color_framebuffer),
                },
            );
            out.push(
                GlCommand::BlitFramebuffer {
                    width: self.renderbuffer_width,
                    height: self.renderbuffer_height,
                },
            );
            out.push(
                GlCommand::BindFramebuffer { target: FramebufferTarget::Both, framebuffer: None },
            );
            out.push(
                GlCommand::Viewport {
                    width: self.renderbuffer_width,
                    height: self.renderbuffer_height,
                },
            );
            let program = self.programs.get(Pipeline::Bitmap);
            out.push(GlCommand::UseProgram(program.pipeline));
            program.uniform_matrix4fv(ShaderUniform::WorldMatrix, Mat4::ClipSpaceQuad, &mut out);
            program.uniform_matrix4fv(ShaderUniform::ViewMatrix, Mat4::Identity, &mut out);
            program.uniform4fv(
                ShaderUniform::MultColor,
                Vec4Value::Mult(crate::gl::ColorUnits { r: 256, g: 256, b: 256, a: 256 }),
                &mut out,
            );
            program.uniform4fv(
                ShaderUniform::AddColor,
                Vec4Value::Add(crate::gl::ColorUnits { r: 0, g: 0, b: 0, a: 0 }),
                &mut out,
            );
            program.uniform_matrix3fv(ShaderUniform::TextureMatrix, identity_matrix(), &mut out);
            out.push(GlCommand::ActiveTexture(0));
            out.push(GlCommand::BindTexture(buffers.framebuffer_texture));
            program.uniform1i(ShaderUniform::BitmapTexture, 0, &mut out);
            let quad = &self.bitmap_quad_draws;
            out.push(GlCommand::BindVertexArray(Some(quad[0].vao)));
            out.push(
                GlCommand::DrawElements { mode: Primitive::TriangleFan, count: quad[0].num_indices },
            );
            self.state.mask.programmed = None;
            self.state.active_program = None;
            self.state.world_matrix = None;
            self.state.mult_color = None;
            self.state.add_color = None;
            assert(out@ =~= end_frame_commands(
                old(self).msaa_buffers,
                old(self).renderbuffer_width,
                old(self).renderbuffer_height,
                old(self).programs.bitmap,
                old(self).bitmap_quad_draws@[0],
            ));
        }
        out
    }

    /// Makes a unit quad for `pipeline` and hands back its one draw. The calls and the
    /// byte strings of its buffers are added to `batch`.
    ///
    /// With fewer than three identifiers left the answer is `UnableToCreateVAO`, and
    /// nothing changes.
    pub fn build_quad_mesh(&mut self, pipeline: Pipeline, batch: &mut GlBatch) -> (made: Result<
        Vec<Draw>,
        Error,
    >)
        requires
            old(self).programs.wf(),
        ensures
            made.is_ok() <==> old(self).next_id + 3 <= u64::MAX,
            made.is_err() ==> made == Err::<Vec<Draw>, Error>(Error::UnableToCreateVAO),
            made.is_err() ==> *final(self) == *old(self) && *final(batch) == *old(batch),
            made matches Ok(draws) ==> {
                &&& draws@ == seq![quad_draw(pipeline, old(self).next_id)]
                &&& final(self).next_id == old(self).next_id + 3
                &&& final(batch).commands@ == old(batch).commands@ + upload_commands(
                    old(self).next_id,
                    old(self).programs.spec_get(pipeline),
                    old(batch).blobs@.len() as int,
                )
                &&& final(batch).blobs@.len() == old(batch).blobs@.len() + 2
                &&& forall|k: int|
                    0 <= k < old(batch).blobs@.len() ==> #[trigger] final(batch).blobs@[k] == old(
                        batch,
                    ).blobs@[k]
                &&& is_memory_image(
                    vertex_words(quad_vertices()),
                    final(batch).blob(old(batch).blobs@.len() as int),
                )
                &&& is_memory_image(
                    quad_indices(),
                    final(batch).blob((old(batch).blobs@.len() + 1) as int),
                )
            },
            final(self).msaa_buffers == old(self).msaa_buffers,
            final(self).programs == old(self).programs,
            final(self).color_quad_draws == old(self).color_quad_draws,
            final(self).bitmap_quad_draws == old(self).bitmap_quad_draws,
            final(self).state == old(self).state,
            final(self).is_transparent == old(self).is_transparent,
            final(self).blend_modes == old(self).blend_modes,
            final(self).renderbuffer_width == old(self).renderbuffer_width,
            final(self).renderbuffer_height == old(self).renderbuffer_height,
            final(self).view_matrix == old(self).view_matrix,
            final(self).viewport_scale_factor == old(self).viewport_scale_factor,
            final(self).bitmaps == old(self).bitmaps,
            final(self).shapes == old(self).shapes,
    {
        if self.next_id > 0xffff_ffff_ffff_ffff - 3 {
            return Err(Error::UnableToCreateVAO);
        }
        let first = self.next_id;
        let white = Rgba8 { r: 255, g: 255, b: 255, a: 255 };
        let zero = Scalar { bits: ZERO_BITS };
        let one = Scalar { bits: ONE_BITS };
        let mut vertices: Vec<TessVertex> = Vec::new();
        vertices.push(TessVertex { x: zero, y: zero, color: white });
        vertices.push(TessVertex { x: one, y: zero, color: white });
        vertices.push(TessVertex { x: one, y: one, color: white });
        vertices.push(TessVertex { x: zero, y: one, color: white });
        assert(vertices@ =~= quad_vertices());
        let mut indices: Vec<u32> = Vec::new();
        indices.push(0);
        indices.push(1);
        indices.push(2);
        indices.push(3);
        assert(indices@ =~= quad_indices());
        let words = vertex_buffer_words(&vertices);
        upload_mesh(first, self.programs.get(pipeline), &words, &indices, batch);
        self.next_id = first + 3;
        let draw_type = match pipeline {
            Pipeline::Bitmap => DrawType::Bitmap(
                BitmapDraw {
                    matrix: identity_matrix(),
                    handle: None,
                    is_repeating: false,
                    is_smoothed: true,
                },
            ),
            _ => DrawType::Color,
        };
        let mut draws = Vec::new();
        draws.push(
            Draw {
                draw_type,
                vertex_buffer: crate::gl::BufferId(first + 1),
                index_buffer: crate::gl::BufferId(first + 2),
                vao: crate::gl::VertexArrayId(first),
                num_indices: 4,
                num_mask_indices: 4,
            },
        );
        assert(draws@ =~= seq![quad_draw(pipeline, first)]);
        Ok(draws)
    }

    /// Makes the backend from what the driver said while the shaders were built, and
    /// hands back the calls that set the GPU up for it: blending is switched on, pixel
    /// rows are taken unaligned, the normal blend mode is installed, the two unit quads
    /// are uploaded, and the viewport is set to one pixel.
    ///
    /// If a shader object could not be made the answer is `UnableToCreateShader`; else,
    /// if a program object could not be made, it is `UnableToCreateProgram`.
    pub fn new(setup: DeviceSetup, is_transparent: bool, _quality: StageQuality) -> (made: Result<
        (GlowRenderBackend, GlBatch),
        Error,
    >)
        ensures
            !setup.has_shaders() ==> made == Err::<(GlowRenderBackend, GlBatch), Error>(
                Error::UnableToCreateShader,
            ),
            setup.has_shaders() && !setup.has_programs() ==> made == Err::<
                (GlowRenderBackend, GlBatch),
                Error,
            >(Error::UnableToCreateProgram),
            made.is_ok() <==> setup.has_shaders() && setup.has_programs(),
            made matches Ok((backend, batch)) ==> {
                &&& backend.wf()
                &&& backend.programs == programs_of(setup)
                &&& backend.is_transparent == is_transparent
                &&& backend.msaa_buffers.is_none()
                &&& backend.state == (DrawState {
                    mask: MaskTracker { state: MaskState::NoMask, depth: 0, programmed: None },
                    active_program: None,
                    world_matrix: None,
                    mult_color: None,
                    add_color: None,
                })
                &&& backend.blend_modes@ == seq![base_mode()]
                &&& backend.renderbuffer_width == 1
                &&& backend.renderbuffer_height == 1
                &&& backend.view_matrix == (Mat4::Ortho { width: 1, height: 1 })
                &&& backend.viewport_scale_factor == SCALE_FACTOR_ONE
                &&& backend.bitmaps@ == Map::<Handle, Entry<RegistryData>>::empty()
                &&& backend.shapes@ == Map::<Handle, Entry<Mesh>>::empty()
                &&& backend.color_quad_draws@ == seq![quad_draw(Pipeline::Color, 0)]
                &&& backend.bitmap_quad_draws@ == seq![quad_draw(Pipeline::Bitmap, 3)]
                &&& backend.next_id == 6
                &&& batch.commands@ == new_commands(programs_of(setup))
                &&& batch.blobs@.len() == 4
                &&& is_memory_image(vertex_words(quad_vertices()), batch.blob(0))
                &&& is_memory_image(quad_indices(), batch.blob(1))
                &&& is_memory_image(vertex_words(quad_vertices()), batch.blob(2))
                &&& is_memory_image(quad_indices(), batch.blob(3))
            },
    {
        if !(setup.color_vertex && setup.texture_vertex && setup.color_fragment
            && setup.bitmap_fragment && setup.gradient_fragment) {
            return Err(Error::UnableToCreateShader);
        }
        let color_program = match ShaderProgram::new(Pipeline::Color, setup.color) {
            Ok(program) => program,
            Err(_) => {
                return Err(Error::UnableToCreateProgram);
            },
        };
        let bitmap_program = match ShaderProgram::new(Pipeline::Bitmap, setup.bitmap) {
            Ok(program) => program,
            Err(_) => {
                return Err(Error::UnableToCreateProgram);
            },
        };
        let gradient_program = match ShaderProgram::new(Pipeline::Gradient, setup.gradient) {
            Ok(program) => program,
            Err(_) => {
                return Err(Error::UnableToCreateProgram);
            },
        };
        let mut batch = GlBatch::new();
        batch.commands.push(GlCommand::Enable(Capability::Blend));
        batch.commands.push(GlCommand::PixelStoreUnpackAlignment(1));
        crate::blend::apply_blend_mode(
            RenderBlendMode::Builtin(BlendMode::Normal),
            &mut batch.commands,
        );
        let mut renderer = GlowRenderBackend {
            msaa_buffers: None,
            programs: Programs {
                color: color_program,
                bitmap: bitmap_program,
                gradient: gradient_program,
            },
            color_quad_draws: Vec::new(),
            bitmap_quad_draws: Vec::new(),
            state: DrawState {
                mask: MaskTracker::new(),
                active_program: None,
                world_matrix: None,
                mult_color: None,
                add_color: None,
            },
            is_transparent,
            blend_modes: BlendStack::new(),
            renderbuffer_width: 1,
            renderbuffer_height: 1,
            view_matrix: Mat4::Identity,
            viewport_scale_factor: SCALE_FACTOR_ONE,
            bitmaps: Arena::new(),
            shapes: Arena::new(),
            next_id: 0,
        };
        let color_quad_mesh = match renderer.build_quad_mesh(Pipeline::Color, &mut batch) {
            Ok(draws) => draws,
            Err(e) => {
                return Err(e);
            },
        };
        let bitmap_quad_mesh = match renderer.build_quad_mesh(Pipeline::Bitmap, &mut batch) {
            Ok(draws) => draws,
            Err(e) => {
                return Err(e);
            },
        };
        renderer.color_quad_draws = color_quad_mesh;
        renderer.bitmap_quad_draws = bitmap_quad_mesh;
        let mut resized = renderer.set_viewport_dimensions(
            ViewportDimensions { width: 1, height: 1, scale_factor: SCALE_FACTOR_ONE },
        );
        batch.commands.append(&mut resized);
        assert(batch.commands@ =~= new_commands(programs_of(setup)));
        Ok((renderer, batch))
    }

    /// Switches multisampled rendering on: the offscreen targets get identifiers, and
    /// the call that provisions them for the size of the render buffer is handed back.
    /// From then on a frame is rendered offscreen and resolved when it ends.
    ///
    /// With fewer than three identifiers left the answer is
    /// `UnableToCreateFrameBuffer`, and nothing changes.
    pub fn enable_msaa(&mut self) -> (made: Result<Vec<GlCommand>, Error>)
        requires
            old(self).wf(),
        ensures
            made.is_ok() <==> old(self).next_id + 3 <= u64::MAX,
            made.is_err() ==> made == Err::<Vec<GlCommand>, Error>(Error::UnableToCreateFrameBuffer)
                && final(self).msaa_buffers == old(self).msaa_buffers
                && final(self).next_id == old(self).next_id,
            made matches Ok(out) ==> {
                &&& final(self).msaa_buffers == Some(msaa_buffers_at(old(self).next_id))
                &&& final(self).next_id == old(self).next_id + 3
                &&& out@ == msaa_commands(
                    Some(msaa_buffers_at(old(self).next_id)),
                    old(self).renderbuffer_width,
                    old(self).renderbuffer_height,
                )
            },
            final(self).programs == old(self).programs,
            final(self).color_quad_draws == old(self).color_quad_draws,
            final(self).bitmap_quad_draws == old(self).bitmap_quad_draws,
            final(self).state == old(self).state,
            final(self).is_transparent == old(self).is_transparent,
            final(self).blend_modes == old(self).blend_modes,
            final(self).renderbuffer_width == old(self).renderbuffer_width,
            final(self).renderbuffer_height == old(self).renderbuffer_height,
            final(self).view_matrix == old(self).view_matrix,
            final(self).viewport_scale_factor == old(self).viewport_scale_factor,
            final(self).bitmaps == old(self).bitmaps,
            final(self).shapes == old(self).shapes,
            final(self).wf(),
    {
        if self.next_id > 0xffff_ffff_ffff_ffff - 3 {
            return Err(Error::UnableToCreateFrameBuffer);
        }
        let first = self.next_id;
        self.next_id = first + 3;
        self.msaa_buffers = Some(
            MsaaBuffers {
                render_framebuffer: FramebufferId(first),
                color_framebuffer: FramebufferId(first + 1),
                framebuffer_texture: TextureId(first + 2),
            },
        );
        let mut out = Vec::new();
        self.build_msaa_buffers(&mut out);
        Ok(out)
    }

    /// The name of the backend.
    pub fn name(&self) -> (name: &'static str)
        ensures
            name@ == "glow"@,
    {
        "glow"
    }

    /// A line that says which renderer this is.
    pub fn debug_info(&self) -> (info: &'static str)
        ensures
            info@ == "Renderer: glow"@,
    {
        "Renderer: glow"
    }

    /// Takes a new quality setting. The backend renders the same at every quality.
    pub fn set_quality(&mut self, _quality: StageQuality)
        ensures
            *final(self) == *old(self),
    {
    }
}

/// The three programs as the driver linked them.
pub open spec fn programs_of(setup: DeviceSetup) -> Programs
    recommends
        setup.has_programs(),
{
    Programs {
        color: crate::shader::linked_program(Pipeline::Color, setup.color->0),
        bitmap: crate::shader::linked_program(Pipeline::Bitmap, setup.bitmap->0),
        gradient: crate::shader::linked_program(Pipeline::Gradient, setup.gradient->0),
    }
}

/// The offscreen targets whose identifiers run from `first` on.
pub open spec fn msaa_buffers_at(first: u64) -> MsaaBuffers {
    MsaaBuffers {
        render_framebuffer: FramebufferId(first),
        color_framebuffer: FramebufferId((first + 1) as u64),
        framebuffer_texture: TextureId((first + 2) as u64),
    }
}

/// The calls that set the GPU up for a new backend.
pub open spec fn new_commands(programs: Programs) -> Seq<GlCommand> {
    seq![GlCommand::Enable(Capability::Blend), GlCommand::PixelStoreUnpackAlignment(1)]
        + blend_commands(base_mode()) + upload_commands(0, programs.color, 0) + upload_commands(
        3,
        programs.bitmap,
        2,
    ) + msaa_commands(None, 1, 1) + seq![GlCommand::Viewport { width: 1, height: 1 }]
}

/// The identity, as a matrix of scalars.
pub fn identity_matrix() -> (m: [[Scalar; 3]; 3])
    ensures
        m == identity_matrix3(),
{
    let zero = Scalar { bits: ZERO_BITS };
    let one = Scalar { bits: ONE_BITS };
    [[one, zero, zero], [zero, one, zero], [zero, zero, one]]
}

} // verus!
