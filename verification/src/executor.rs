//! The command executor: each drawing command is resolved to the calls it asks of the
//! GPU and to what is known of the GPU afterwards.
//!
//! A mask command that is out of turn, and a line whose place cannot be moved by half a
//! pixel, are passed over when a list is carried out.

use vstd::prelude::*;
use crate::arena::{Entry, Handle};
use crate::backend::GlowRenderBackend;
use crate::blend::{
    pop_commands, push_commands, stack_step, step_commands, BlendOp, RenderBlendMode,
};
use crate::backend::{begin_frame_commands, end_frame_commands, frame_end_state, frame_start_state};
use crate::bitmaps::BitmapError;
use crate::commands::{BitmapCacheEntry, Command, CommandList};
use crate::gl::{
    GlCommand, Mat4, Matrix, Pipeline, PixelSnapping, Primitive, Rgba8, TextureValue, Transform,
};
use crate::mask::MaskOp;
use crate::mesh::{BitmapHandle, Draw, DrawType, Mesh, ShapeHandle};
use crate::render::{
    add_rgba, add_units, bind_texture, common_commands, common_state, draws_commands, draws_state,
    filter_value, mult_rgba, mult_units, quad_mult_units, render_draws, set_common_state,
    texture_commands, zero_units, DrawState, Programs, RegistryData,
};
use crate::shader::{set_uniform, ShaderUniform, UniformValue};
use crate::twips::{add_half_pixel, HALF_PIXEL};

verus! {

/// What a frame draws with and does not change.
pub struct Scene {
    pub programs: Programs,
    pub view: Mat4,
    pub bitmaps: Map<Handle, Entry<RegistryData>>,
    pub shapes: Map<Handle, Entry<Mesh>>,
    pub color_quad: Draw,
    pub bitmap_quad: Draw,
}

/// What changes while a frame is drawn: what is known of the GPU, and the blend stack.
pub struct FrameState {
    pub draw: DrawState,
    pub blend: Seq<RenderBlendMode>,
}

/// `state` once the stencil setup is up to date.
pub open spec fn flushed_state(state: DrawState) -> DrawState {
    DrawState {
        mask: state.mask.flushed(),
        active_program: state.active_program,
        world_matrix: state.world_matrix,
        mult_color: state.mult_color,
        add_color: state.add_color,
    }
}

/// `state` after the mask call `op`, or `state` itself if the call is out of turn.
pub open spec fn mask_state(state: DrawState, op: MaskOp) -> DrawState {
    if state.mask.legal(op) {
        DrawState {
            mask: state.mask.step(op),
            active_program: state.active_program,
            world_matrix: state.world_matrix,
            mult_color: state.mult_color,
            add_color: state.add_color,
        }
    } else {
        state
    }
}

/// What is known of the GPU after a quad in `color` was drawn under `matrix`.
pub open spec fn quad_state(state: DrawState, color: Rgba8, matrix: Matrix) -> DrawState {
    common_state(
        flushed_state(state),
        Pipeline::Color,
        Mat4::World(matrix),
        quad_mult_units(color),
        zero_units(),
    )
}

/// The calls that draw the unit quad in `color` under `matrix`: the stencil setup, the
/// common setup with the color program, the quad's vertex array, and a draw call of
/// `mode` for `count` indices, or for all the quad has.
pub open spec fn quad_commands(
    scene: Scene,
    state: DrawState,
    mode: Primitive,
    count: Option<i32>,
    color: Rgba8,
    matrix: Matrix,
) -> Seq<GlCommand> {
    state.mask.flush_commands() + common_commands(
        flushed_state(state),
        scene.programs.color,
        scene.view,
        Mat4::World(matrix),
        quad_mult_units(color),
        zero_units(),
    ) + seq![
        GlCommand::BindVertexArray(Some(scene.color_quad.vao)),
        GlCommand::DrawElements {
            mode,
            count: match count {
                Some(n) => n,
                None => scene.color_quad.num_indices,
            },
        },
    ]
}

/// `matrix` moved by half a pixel to the right and down, so that a hairline runs
/// through the centers of pixels.
pub open spec fn moved_half_pixel(matrix: Matrix) -> Matrix {
    Matrix {
        a: matrix.a,
        b: matrix.b,
        c: matrix.c,
        d: matrix.d,
        tx: (matrix.tx + HALF_PIXEL) as i32,
        ty: (matrix.ty + HALF_PIXEL) as i32,
    }
}

/// Whether `matrix` can be moved by half a pixel.
pub open spec fn can_move_half_pixel(matrix: Matrix) -> bool {
    matrix.tx + HALF_PIXEL <= i32::MAX && matrix.ty + HALF_PIXEL <= i32::MAX
}

/// The matrix that the texture matrix uniform gets when a bitmap is drawn: that of the
/// bitmap quad.
pub open spec fn quad_texture_matrix(quad: Draw) -> [[crate::gl::Scalar; 3]; 3] {
    match quad.draw_type {
        DrawType::Bitmap(bitmap) => bitmap.matrix,
        _ => crate::mesh::identity_matrix3(),
    }
}

/// The world matrix of the quad on which the bitmap that `bitmap` names is drawn.
pub open spec fn bitmap_world(
    scene: Scene,
    bitmap: BitmapHandle,
    transform: Transform,
    pixel_snapping: PixelSnapping,
) -> Mat4 {
    Mat4::BitmapQuad {
        matrix: transform.matrix,
        snapping: pixel_snapping,
        width: scene.bitmaps[bitmap.0].value.width,
        height: scene.bitmaps[bitmap.0].value.height,
    }
}

/// What is known of the GPU after a bitmap was drawn. A handle that names no bitmap
/// leaves it at the stencil setup.
pub open spec fn bitmap_state(
    scene: Scene,
    state: DrawState,
    bitmap: BitmapHandle,
    transform: Transform,
    pixel_snapping: PixelSnapping,
) -> DrawState {
    if scene.bitmaps.dom().contains(bitmap.0) {
        common_state(
            flushed_state(state),
            Pipeline::Bitmap,
            bitmap_world(scene, bitmap, transform, pixel_snapping),
            mult_units(transform.color_transform),
            add_units(transform.color_transform),
        )
    } else {
        flushed_state(state)
    }
}

/// The calls that draw a bitmap: the stencil setup, the bitmap quad's vertex array, the
/// common setup with the bitmap program and the world matrix of the quad scaled to the
/// bitmap's size, the texture matrix, the bitmap's texture, filtered as `smoothing`
/// says and clamped to its edge, and a draw call for the quad as a triangle fan. A
/// handle that names no bitmap asks for the stencil setup alone.
pub open spec fn bitmap_commands(
    scene: Scene,
    state: DrawState,
    bitmap: BitmapHandle,
    transform: Transform,
    smoothing: bool,
    pixel_snapping: PixelSnapping,
) -> Seq<GlCommand> {
    if scene.bitmaps.dom().contains(bitmap.0) {
        let entry = scene.bitmaps[bitmap.0].value;
        state.mask.flush_commands() + seq![GlCommand::BindVertexArray(Some(scene.bitmap_quad.vao))]
            + common_commands(
            flushed_state(state),
            scene.programs.bitmap,
            scene.view,
            bitmap_world(scene, bitmap, transform, pixel_snapping),
            mult_units(transform.color_transform),
            add_units(transform.color_transform),
        ) + set_uniform(
            scene.programs.bitmap.spec_location(ShaderUniform::TextureMatrix),
            UniformValue::Matrix3(quad_texture_matrix(scene.bitmap_quad)),
        ) + texture_commands(
            scene.programs.bitmap,
            entry.texture,
            filter_value(smoothing),
            TextureValue::ClampToEdge,
        ) + seq![
            GlCommand::DrawElements {
                mode: Primitive::TriangleFan,
                count: scene.bitmap_quad.num_indices,
            },
        ]
    } else {
        state.mask.flush_commands()
    }
}

/// The draws of the shape that `shape` names; none if it names no shape.
pub open spec fn shape_draws(scene: Scene, shape: ShapeHandle) -> Seq<Draw> {
    if scene.shapes.dom().contains(shape.0) {
        scene.shapes[shape.0].value.draws@
    } else {
        seq![]
    }
}

/// What is known of the GPU after a shape was drawn.
pub open spec fn shape_state(
    scene: Scene,
    state: DrawState,
    shape: ShapeHandle,
    transform: Transform,
) -> DrawState {
    draws_state(
        flushed_state(state),
        shape_draws(scene, shape),
        Mat4::World(transform.matrix),
        mult_units(transform.color_transform),
        add_units(transform.color_transform),
    )
}

/// The calls that draw a shape: the stencil setup, then the calls of each of its draws
/// in turn.
pub open spec fn shape_commands(
    scene: Scene,
    state: DrawState,
    shape: ShapeHandle,
    transform: Transform,
) -> Seq<GlCommand> {
    state.mask.flush_commands() + draws_commands(
        flushed_state(state),
        scene.programs,
        scene.view,
        scene.bitmaps,
        shape_draws(scene, shape),
        Mat4::World(transform.matrix),
        mult_units(transform.color_transform),
        add_units(transform.color_transform),
    )
}

/// The frame after `command`.
pub open spec fn command_step(scene: Scene, frame: FrameState, command: Command) -> FrameState
    decreases command,
{
    match command {
        Command::RenderBitmap { bitmap, transform, smoothing, pixel_snapping } => FrameState {
            draw: bitmap_state(scene, frame.draw, bitmap, transform, pixel_snapping),
            blend: frame.blend,
        },
        Command::RenderShape { shape, transform } => FrameState {
            draw: shape_state(scene, frame.draw, shape, transform),
            blend: frame.blend,
        },
        Command::DrawRect { color, matrix } => FrameState {
            draw: quad_state(frame.draw, color, matrix),
            blend: frame.blend,
        },
        Command::DrawLine { color, matrix } => if can_move_half_pixel(matrix) {
            FrameState {
                draw: quad_state(frame.draw, color, moved_half_pixel(matrix)),
                blend: frame.blend,
            }
        } else {
            frame
        },
        Command::DrawLineRect { color, matrix } => if can_move_half_pixel(matrix) {
            FrameState {
                draw: quad_state(frame.draw, color, moved_half_pixel(matrix)),
                blend: frame.blend,
            }
        } else {
            frame
        },
        Command::PushMask => FrameState {
            draw: mask_state(frame.draw, MaskOp::Push),
            blend: frame.blend,
        },
        Command::ActivateMask => FrameState {
            draw: mask_state(frame.draw, MaskOp::Activate),
            blend: frame.blend,
        },
        Command::DeactivateMask => FrameState {
            draw: mask_state(frame.draw, MaskOp::Deactivate),
            blend: frame.blend,
        },
        Command::PopMask => FrameState {
            draw: mask_state(frame.draw, MaskOp::Pop),
            blend: frame.blend,
        },
        Command::Blend(list, mode) => {
            let pushed = FrameState {
                draw: frame.draw,
                blend: stack_step(frame.blend, BlendOp::Push(mode)),
            };
            let drawn = list_step(scene, pushed, list.commands@, list.commands@.len() as int);
            FrameState { draw: drawn.draw, blend: stack_step(drawn.blend, BlendOp::Pop) }
        },
        Command::RenderAlphaMask { maskee_commands, mask_commands } => list_step(
            scene,
            frame,
            maskee_commands.commands@,
            maskee_commands.commands@.len() as int,
        ),
    }
}

/// The frame after the first `n` of `commands`.
pub open spec fn list_step(scene: Scene, frame: FrameState, commands: Seq<Command>, n: int) -> FrameState
    decreases commands, n,
{
    if n <= 0 || n > commands.len() {
        frame
    } else {
        command_step(scene, list_step(scene, frame, commands, n - 1), commands[n - 1])
    }
}

/// The calls that `command` asks for. A blend group asks for the change of blend mode,
/// the calls of its commands, and the change back. An alpha mask asks for the calls of
/// what it masks and for nothing else: the mask itself is not drawn.
pub open spec fn command_output(scene: Scene, frame: FrameState, command: Command) -> Seq<GlCommand>
    decreases command,
{
    match command {
        Command::RenderBitmap { bitmap, transform, smoothing, pixel_snapping } => bitmap_commands(
            scene,
            frame.draw,
            bitmap,
            transform,
            smoothing,
            pixel_snapping,
        ),
        Command::RenderShape { shape, transform } => shape_commands(
            scene,
            frame.draw,
            shape,
            transform,
        ),
        Command::DrawRect { color, matrix } => quad_commands(
            scene,
            frame.draw,
            Primitive::TriangleFan,
            None,
            color,
            matrix,
        ),
        Command::DrawLine { color, matrix } => if can_move_half_pixel(matrix) {
            quad_commands(
                scene,
                frame.draw,
                Primitive::LineStrip,
                Some(2i32),
                color,
                moved_half_pixel(matrix),
            )
        } else {
            seq![]
        },
        Command::DrawLineRect { color, matrix } => if can_move_half_pixel(matrix) {
            quad_commands(
                scene,
                frame.draw,
                Primitive::LineLoop,
                None,
                color,
                moved_half_pixel(matrix),
            )
        } else {
            seq![]
        },
        Command::PushMask => seq![],
        Command::ActivateMask => seq![],
        Command::DeactivateMask => seq![],
        Command::PopMask => seq![],
        Command::Blend(list, mode) => {
            let pushed = FrameState {
                draw: frame.draw,
                blend: stack_step(frame.blend, BlendOp::Push(mode)),
            };
            let drawn = list_step(scene, pushed, list.commands@, list.commands@.len() as int);
            step_commands(frame.blend, BlendOp::Push(mode)) + list_output(
                scene,
                pushed,
                list.commands@,
                list.commands@.len() as int,
            ) + step_commands(drawn.blend, BlendOp::Pop)
        },
        Command::RenderAlphaMask { maskee_commands, mask_commands } => list_output(
            scene,
            frame,
            maskee_commands.commands@,
            maskee_commands.commands@.len() as int,
        ),
    }
}

/// The calls that the first `n` of `commands` ask for, in order.
pub open spec fn list_output(scene: Scene, frame: FrameState, commands: Seq<Command>, n: int) -> Seq<
    GlCommand,
>
    decreases commands, n,
{
    if n <= 0 || n > commands.len() {
        seq![]
    } else {
        list_output(scene, frame, commands, n - 1) + command_output(
            scene,
            list_step(scene, frame, commands, n - 1),
            commands[n - 1],
        )
    }
}

impl GlowRenderBackend {
    /// What a frame draws with.
    pub open spec fn scene(&self) -> Scene {
        Scene {
            programs: self.programs,
            view: self.view_matrix,
            bitmaps: self.bitmaps@,
            shapes: self.shapes@,
            color_quad: self.color_quad_draws@[0],
            bitmap_quad: self.bitmap_quad_draws@[0],
        }
    }

    /// What changes while a frame is drawn.
    pub open spec fn frame_state(&self) -> FrameState {
        FrameState { draw: self.state, blend: self.blend_modes@ }
    }

    /// Adds to `out` the calls that draw the unit quad in `color` under `matrix`, as
    /// primitives of `mode` made of `count` indices, or of all the quad has.
    pub fn draw_quad(
        &mut self,
        mode: Primitive,
        count: Option<i32>,
        color: Rgba8,
        matrix: Matrix,
        out: &mut Vec<GlCommand>,
    )
        requires
            old(self).wf(),
        ensures
            final(self).state == quad_state(old(self).state, color, matrix),
            final(out)@ == old(out)@ + quad_commands(
                old(self).scene(),
                old(self).state,
                mode,
                count,
                color,
                matrix,
            ),
            final(self).blend_modes == old(self).blend_modes,
            final(self).same_scene(old(self)),
            final(self).wf(),
    {
        let mult_color = crate::gl::ColorUnits {
            r: color.r as i32 * 65280,
            g: color.g as i32 * 65280,
            b: color.b as i32 * 65280,
            a: color.a as i32 * 65280,
        };
        let add_color = crate::gl::ColorUnits { r: 0, g: 0, b: 0, a: 0 };
        self.set_stencil_state(out);
        set_common_state(
            &mut self.state,
            &self.programs.color,
            self.view_matrix,
            Mat4::World(matrix),
            mult_color,
            add_color,
            out,
        );
        let quad = &self.color_quad_draws;
        out.push(GlCommand::BindVertexArray(Some(quad[0].vao)));
        let count = match count {
            Some(n) => n,
            None => quad[0].num_indices,
        };
        out.push(GlCommand::DrawElements { mode, count });
        assert(out@ =~= old(out)@ + quad_commands(
            old(self).scene(),
            old(self).state,
            mode,
            Some(count),
            color,
            matrix,
        ));
    }

    /// Adds to `out` the calls that fill the unit square under `matrix` with `color`.
    pub fn draw_rect(&mut self, color: Rgba8, matrix: Matrix, out: &mut Vec<GlCommand>)
        requires
            old(self).wf(),
        ensures
            final(self).state == quad_state(old(self).state, color, matrix),
            final(out)@ == old(out)@ + quad_commands(
                old(self).scene(),
                old(self).state,
                Primitive::TriangleFan,
                None,
                color,
                matrix,
            ),
            final(self).blend_modes == old(self).blend_modes,
            final(self).same_scene(old(self)),
            final(self).wf(),
    {
        self.draw_quad(Primitive::TriangleFan, None, color, matrix, out)
    }

    /// Adds to `out` the calls that draw a hairline in `color` along the first edge of
    /// the unit square under `matrix`, moved by half a pixel.
    pub fn draw_line(&mut self, color: Rgba8, matrix: Matrix, out: &mut Vec<GlCommand>)
        requires
            old(self).wf(),
            can_move_half_pixel(matrix),
        ensures
            final(self).state == quad_state(old(self).state, color, moved_half_pixel(matrix)),
            final(out)@ == old(out)@ + quad_commands(
                old(self).scene(),
                old(self).state,
                Primitive::LineStrip,
                Some(2i32),
                color,
                moved_half_pixel(matrix),
            ),
            final(self).blend_modes == old(self).blend_modes,
            final(self).same_scene(old(self)),
            final(self).wf(),
    {
        let mut matrix = matrix;
        matrix.tx = add_half_pixel(matrix.tx);
        matrix.ty = add_half_pixel(matrix.ty);
        self.draw_quad(Primitive::LineStrip, Some(2), color, matrix, out)
    }

    /// Adds to `out` the calls that draw the outline of the unit square under `matrix`
    /// in `color`, as hairlines moved by half a pixel.
    pub fn draw_line_rect(&mut self, color: Rgba8, matrix: Matrix, out: &mut Vec<GlCommand>)
        requires
            old(self).wf(),
            can_move_half_pixel(matrix),
        ensures
            final(self).state == quad_state(old(self).state, color, moved_half_pixel(matrix)),
            final(out)@ == old(out)@ + quad_commands(
                old(self).scene(),
                old(self).state,
                Primitive::LineLoop,
                None,
                color,
                moved_half_pixel(matrix),
            ),
            final(self).blend_modes == old(self).blend_modes,
            final(self).same_scene(old(self)),
            final(self).wf(),
    {
        let mut matrix = matrix;
        matrix.tx = add_half_pixel(matrix.tx);
        matrix.ty = add_half_pixel(matrix.ty);
        self.draw_quad(Primitive::LineLoop, None, color, matrix, out)
    }

    /// Whether `matrix` can be moved by half a pixel, as a hairline's matrix is.
    pub fn can_offset(matrix: &Matrix) -> (ok: bool)
        ensures
            ok == can_move_half_pixel(*matrix),
    {
        matrix.tx <= 0x7fff_ffff - HALF_PIXEL && matrix.ty <= 0x7fff_ffff - HALF_PIXEL
    }

    /// Adds to `out` the calls that draw the bitmap that `bitmap` names, scaled to its
    /// size in pixels, under `transform`.
    pub fn render_bitmap(
        &mut self,
        bitmap: BitmapHandle,
        transform: Transform,
        smoothing: bool,
        pixel_snapping: PixelSnapping,
        out: &mut Vec<GlCommand>,
    )
        requires
            old(self).wf(),
        ensures
            final(self).state == bitmap_state(
                old(self).scene(),
                old(self).state,
                bitmap,
                transform,
                pixel_snapping,
            ),
            final(out)@ == old(out)@ + bitmap_commands(
                old(self).scene(),
                old(self).state,
                bitmap,
                transform,
                smoothing,
                pixel_snapping,
            ),
            final(self).blend_modes == old(self).blend_modes,
            final(self).same_scene(old(self)),
            final(self).wf(),
    {
        self.set_stencil_state(out);
        let entry = match self.bitmaps.get(bitmap.0) {
            Some(entry) => *entry,
            None => {
                return ;
            },
        };
        let draw = self.bitmap_quad_draws[0];
        let bitmap_matrix = match draw.draw_type {
            DrawType::Bitmap(quad_bitmap) => quad_bitmap.matrix,
            _ => crate::backend::identity_matrix(),
        };
        let world_matrix = Mat4::BitmapQuad {
            matrix: transform.matrix,
            snapping: pixel_snapping,
            width: entry.width,
            height: entry.height,
        };
        let mult_color = mult_rgba(&transform.color_transform);
        let add_color = add_rgba(&transform.color_transform);
        out.push(GlCommand::BindVertexArray(Some(draw.vao)));
        set_common_state(
            &mut self.state,
            &self.programs.bitmap,
            self.view_matrix,
            world_matrix,
            mult_color,
            add_color,
            out,
        );
        self.programs.bitmap.uniform_matrix3fv(ShaderUniform::TextureMatrix, bitmap_matrix, out);
        bind_texture(&self.programs.bitmap, entry.texture, smoothing, false, out);
        out.push(GlCommand::DrawElements { mode: Primitive::TriangleFan, count: draw.num_indices });
        assert(out@ =~= old(out)@ + bitmap_commands(
            old(self).scene(),
            old(self).state,
            bitmap,
            transform,
            smoothing,
            pixel_snapping,
        ));
    }

    /// Adds to `out` the calls that draw the shape that `shape` names under
    /// `transform`. Of each draw the indices that count in the current mask phase are
    /// drawn; a draw with none is passed over.
    pub fn render_shape(&mut self, shape: ShapeHandle, transform: Transform, out: &mut Vec<GlCommand>)
        requires
            old(self).wf(),
        ensures
            final(self).state == shape_state(old(self).scene(), old(self).state, shape, transform),
            final(out)@ == old(out)@ + shape_commands(
                old(self).scene(),
                old(self).state,
                shape,
                transform,
            ),
            final(self).blend_modes == old(self).blend_modes,
            final(self).same_scene(old(self)),
            final(self).wf(),
    {
        let world_matrix = Mat4::World(transform.matrix);
        let mult_color = mult_rgba(&transform.color_transform);
        let add_color = add_rgba(&transform.color_transform);
        self.set_stencil_state(out);
        let ghost flushed = out@;
        match self.shapes.get(shape.0) {
            Some(mesh) => {
                render_draws(
                    &mut self.state,
                    &self.programs,
                    self.view_matrix,
                    &self.bitmaps,
                    &mesh.draws,
                    world_matrix,
                    mult_color,
                    add_color,
                    out,
                );
            },
            None => {
                assert(out@ =~= flushed + Seq::<GlCommand>::empty());
            },
        }
        assert(out@ =~= old(out)@ + shape_commands(
            old(self).scene(),
            old(self).state,
            shape,
            transform,
        ));
    }

    /// Opens a mask.
    pub fn push_mask(&mut self)
        requires
            old(self).wf(),
            old(self).state.mask.legal(MaskOp::Push),
        ensures
            final(self).state == mask_state(old(self).state, MaskOp::Push),
            final(self).state.mask.depth == old(self).state.mask.depth + 1,
            final(self).blend_modes == old(self).blend_modes,
            final(self).same_scene(old(self)),
            final(self).wf(),
    {
        self.state.mask.push_mask();
    }

    /// Ends the silhouette of the open mask and begins what it clips.
    pub fn activate_mask(&mut self)
        requires
            old(self).wf(),
            old(self).state.mask.legal(MaskOp::Activate),
        ensures
            final(self).state == mask_state(old(self).state, MaskOp::Activate),
            final(self).blend_modes == old(self).blend_modes,
            final(self).same_scene(old(self)),
            final(self).wf(),
    {
        self.state.mask.activate_mask();
    }

    /// Ends what the open mask clips and begins taking its silhouette out.
    pub fn deactivate_mask(&mut self)
        requires
            old(self).wf(),
            old(self).state.mask.legal(MaskOp::Deactivate),
        ensures
            final(self).state == mask_state(old(self).state, MaskOp::Deactivate),
            final(self).blend_modes == old(self).blend_modes,
            final(self).same_scene(old(self)),
            final(self).wf(),
    {
        self.state.mask.deactivate_mask();
    }

    /// Closes the open mask.
    pub fn pop_mask(&mut self)
        requires
            old(self).wf(),
            old(self).state.mask.legal(MaskOp::Pop),
        ensures
            final(self).state == mask_state(old(self).state, MaskOp::Pop),
            final(self).state.mask.depth == old(self).state.mask.depth - 1,
            final(self).blend_modes == old(self).blend_modes,
            final(self).same_scene(old(self)),
            final(self).wf(),
    {
        self.state.mask.pop_mask();
    }

    /// Makes the mask call `op` if it is in turn, and says whether it was.
    pub fn try_mask(&mut self, op: MaskOp) -> (done: bool)
        requires
            old(self).wf(),
        ensures
            done == old(self).state.mask.legal(op),
            final(self).state == mask_state(old(self).state, op),
            final(self).blend_modes == old(self).blend_modes,
            final(self).same_scene(old(self)),
            final(self).wf(),
    {
        if self.state.mask.is_legal(op) {
            self.state.mask.apply(op);
            true
        } else {
            false
        }
    }

    /// Puts `blend` on the blend stack, adding to `out` the calls that set the GPU up
    /// for it if it differs from the mode on top.
    pub fn push_blend_mode(&mut self, blend: RenderBlendMode, out: &mut Vec<GlCommand>)
        requires
            old(self).wf(),
        ensures
            final(self).blend_modes@ == stack_step(old(self).blend_modes@, BlendOp::Push(blend)),
            final(out)@ == old(out)@ + step_commands(old(self).blend_modes@, BlendOp::Push(blend)),
            final(out)@ == old(out)@ + push_commands(old(self).blend_modes@, blend),
            blend == old(self).blend_modes@.last() ==> final(out)@ == old(out)@,
            final(self).state == old(self).state,
            final(self).same_scene(old(self)),
            final(self).wf(),
    {
        self.blend_modes.push_blend_mode(blend, out);
    }

    /// Takes the mode on top of the blend stack away, unless it is the only one, adding
    /// to `out` the calls that set the GPU up for the mode under it if that differs.
    pub fn pop_blend_mode(&mut self, out: &mut Vec<GlCommand>)
        requires
            old(self).wf(),
        ensures
            final(self).blend_modes@ == stack_step(old(self).blend_modes@, BlendOp::Pop),
            final(out)@ == old(out)@ + step_commands(old(self).blend_modes@, BlendOp::Pop),
            final(out)@ == old(out)@ + pop_commands(old(self).blend_modes@),
            final(self).state == old(self).state,
            final(self).same_scene(old(self)),
            final(self).wf(),
    {
        self.blend_modes.pop_blend_mode(out);
    }

    /// Adds to `out` the calls of `commands` drawn in the blend mode `blend`.
    pub fn blend(&mut self, commands: &CommandList, blend: RenderBlendMode, out: &mut Vec<GlCommand>)
        requires
            old(self).wf(),
        ensures
            final(self).frame_state() == blend_step(
                old(self).scene(),
                old(self).frame_state(),
                commands@,
                blend,
            ),
            final(out)@ == old(out)@ + blend_output(
                old(self).scene(),
                old(self).frame_state(),
                commands@,
                blend,
            ),
            final(self).blend_modes@ == old(self).blend_modes@,
            final(self).same_scene(old(self)),
            final(self).wf(),
        decreases commands, 1int,
    {
        self.push_blend_mode(blend, out);
        self.execute(commands, out);
        self.pop_blend_mode(out);
        assert(old(self).blend_modes@.push(blend).drop_last() =~= old(self).blend_modes@);
        assert(out@ =~= old(out)@ + blend_output(
            old(self).scene(),
            old(self).frame_state(),
            commands@,
            blend,
        ));
    }

    /// Adds to `out` the calls of `maskee_commands`. What `mask_commands` would draw is
    /// not drawn: masking by alpha is not implemented, and the commands are seen
    /// unmasked.
    pub fn render_alpha_mask(
        &mut self,
        maskee_commands: &CommandList,
        _mask_commands: &CommandList,
        out: &mut Vec<GlCommand>,
    )
        requires
            old(self).wf(),
        ensures
            final(self).frame_state() == list_step(
                old(self).scene(),
                old(self).frame_state(),
                maskee_commands@,
                maskee_commands@.len() as int,
            ),
            final(out)@ == old(out)@ + list_output(
                old(self).scene(),
                old(self).frame_state(),
                maskee_commands@,
                maskee_commands@.len() as int,
            ),
            final(self).blend_modes@ == old(self).blend_modes@,
            final(self).same_scene(old(self)),
            final(self).wf(),
        decreases maskee_commands, 1int,
    {
        self.execute(maskee_commands, out);
    }

    /// Adds to `out` the calls of one command.
    pub fn execute_command(&mut self, command: &Command, out: &mut Vec<GlCommand>)
        requires
            old(self).wf(),
        ensures
            final(self).frame_state() == command_step(
                old(self).scene(),
                old(self).frame_state(),
                *command,
            ),
            final(out)@ == old(out)@ + command_output(
                old(self).scene(),
                old(self).frame_state(),
                *command,
            ),
            final(self).blend_modes@ == old(self).blend_modes@,
            final(self).same_scene(old(self)),
            final(self).wf(),
        decreases command, 0int,
    {
        proof {
            lemma_command_keeps_blend_stack(old(self).scene(), old(self).frame_state(), *command);
        }
        match command {
            Command::RenderBitmap { bitmap, transform, smoothing, pixel_snapping } => {
                self.render_bitmap(*bitmap, *transform, *smoothing, *pixel_snapping, out);
            },
            Command::RenderShape { shape, transform } => {
                self.render_shape(*shape, *transform, out);
            },
            Command::DrawRect { color, matrix } => {
                self.draw_rect(*color, *matrix, out);
            },
            Command::DrawLine { color, matrix } => {
                if Self::can_offset(matrix) {
                    self.draw_line(*color, *matrix, out);
                } else {
                    assert(out@ =~= old(out)@ + Seq::<GlCommand>::empty());
                }
            },
            Command::DrawLineRect { color, matrix } => {
                if Self::can_offset(matrix) {
                    self.draw_line_rect(*color, *matrix, out);
                } else {
                    assert(out@ =~= old(out)@ + Seq::<GlCommand>::empty());
                }
            },
            Command::PushMask => {
                self.try_mask(MaskOp::Push);
                assert(out@ =~= old(out)@ + Seq::<GlCommand>::empty());
            },
            Command::ActivateMask => {
                self.try_mask(MaskOp::Activate);
                assert(out@ =~= old(out)@ + Seq::<GlCommand>::empty());
            },
            Command::DeactivateMask => {
                self.try_mask(MaskOp::Deactivate);
                assert(out@ =~= old(out)@ + Seq::<GlCommand>::empty());
            },
            Command::PopMask => {
                self.try_mask(MaskOp::Pop);
                assert(out@ =~= old(out)@ + Seq::<GlCommand>::empty());
            },
            Command::Blend(list, mode) => {
                self.blend(list, *mode, out);
            },
            Command::RenderAlphaMask { maskee_commands, mask_commands } => {
                self.render_alpha_mask(maskee_commands, mask_commands, out);
            },
        }
    }

    /// Adds to `out` the calls of `commands`, carried out in their order.
    pub fn execute(&mut self, commands: &CommandList, out: &mut Vec<GlCommand>)
        requires
            old(self).wf(),
        ensures
            final(self).frame_state() == list_step(
                old(self).scene(),
                old(self).frame_state(),
                commands@,
                commands@.len() as int,
            ),
            final(out)@ == old(out)@ + list_output(
                old(self).scene(),
                old(self).frame_state(),
                commands@,
                commands@.len() as int,
            ),
            final(self).blend_modes@ == old(self).blend_modes@,
            final(self).same_scene(old(self)),
            final(self).wf(),
        decreases commands, 0int,
    {
        proof {
            lemma_list_keeps_blend_stack(
                old(self).scene(),
                old(self).frame_state(),
                commands@,
                commands@.len() as int,
            );
        }
        let mut i: usize = 0;
        while i < commands.commands.len()
            invariant
                i <= commands.commands.len(),
                self.wf(),
                self.same_scene(old(self)),
                self.frame_state() == list_step(
                    old(self).scene(),
                    old(self).frame_state(),
                    commands@,
                    i as int,
                ),
                out@ == old(out)@ + list_output(
                    old(self).scene(),
                    old(self).frame_state(),
                    commands@,
                    i as int,
                ),
            decreases commands.commands.len() - i,
        {
            assert(self.scene() == old(self).scene());
            self.execute_command(&commands.commands[i], out);
            assert(out@ =~= old(out)@ + list_output(
                old(self).scene(),
                old(self).frame_state(),
                commands@,
                i + 1,
            ));
            i = i + 1;
        }
    }
}

/// A 3D context. The backend has none to give.
#[derive(Debug, PartialEq, Eq)]
pub struct Context3D {}

/// A compiled pixel shader. The backend compiles none.
#[derive(Debug, PartialEq, Eq)]
pub struct PixelBenderShaderHandle {}

/// What a pixel shader wrote. The backend runs none.
#[derive(Debug, PartialEq, Eq)]
pub struct PixelBenderOutput {}

/// The promise of pixels read back from the GPU. The backend makes none.
#[derive(Debug, PartialEq, Eq)]
pub struct SyncHandle {}

impl GlowRenderBackend {
    /// Draws a frame: it is begun and cleared to `clear`, `commands` are carried out,
    /// and it is ended. The calls of all three come back in that order. The backend
    /// keeps no pictures of display objects, so there must be no cache entries.
    pub fn submit_frame(
        &mut self,
        clear: Rgba8,
        commands: &CommandList,
        cache_entries: &Vec<BitmapCacheEntry>,
    ) -> (out: Vec<GlCommand>)
        requires
            old(self).wf(),
            cache_entries@.len() == 0,
        ensures
            out@ == frame_output(old(self).scene(), old(self), clear, commands@),
            final(self).state == frame_end_state(
                frame_drawn(old(self).scene(), old(self).blend_modes@, commands@).draw,
                old(self).msaa_buffers,
            ),
            final(self).blend_modes@ == old(self).blend_modes@,
            final(self).same_scene(old(self)),
            final(self).wf(),
    {
        let mut out = self.begin_frame(clear);
        assert(self.scene() == old(self).scene());
        self.execute(commands, &mut out);
        let mut ended = self.end_frame();
        out.append(&mut ended);
        assert(out@ =~= frame_output(old(self).scene(), old(self), clear, commands@));
        out
    }

    /// Renders commands into a bitmap. The backend does not do this and says so by
    /// handing back no promise of pixels.
    pub fn render_offscreen(&mut self) -> (handle: Option<SyncHandle>)
        ensures
            handle.is_none(),
            *final(self) == *old(self),
    {
        None
    }

    /// Makes a 3D context. The backend does not do this.
    pub fn create_context3d(&mut self) -> (made: Result<Context3D, BitmapError>)
        ensures
            made == Err::<Context3D, BitmapError>(BitmapError::Unimplemented("createContext3D")),
            *final(self) == *old(self),
    {
        Err(BitmapError::Unimplemented("createContext3D"))
    }

    /// Compiles a pixel shader. The backend does not do this.
    pub fn compile_pixelbender_shader(&mut self) -> (made: Result<
        PixelBenderShaderHandle,
        BitmapError,
    >)
        ensures
            made == Err::<PixelBenderShaderHandle, BitmapError>(
                BitmapError::Unimplemented("compile_pixelbender_shader"),
            ),
            *final(self) == *old(self),
    {
        Err(BitmapError::Unimplemented("compile_pixelbender_shader"))
    }

    /// Waits for pixels read back from the GPU. The backend does not do this.
    pub fn resolve_sync_handle(&mut self, _handle: SyncHandle) -> (made: Result<(), BitmapError>)
        ensures
            made == Err::<(), BitmapError>(BitmapError::Unimplemented("Sync handle resolution")),
            *final(self) == *old(self),
    {
        Err(BitmapError::Unimplemented("Sync handle resolution"))
    }

    /// Runs a pixel shader. The backend does not do this.
    pub fn run_pixelbender_shader(&mut self, _handle: PixelBenderShaderHandle) -> (made: Result<
        PixelBenderOutput,
        BitmapError,
    >)
        ensures
            made == Err::<PixelBenderOutput, BitmapError>(
                BitmapError::Unimplemented("run_pixelbender_shader"),
            ),
            *final(self) == *old(self),
    {
        Err(BitmapError::Unimplemented("run_pixelbender_shader"))
    }
}

/// The frame once it has begun and `commands` were carried out.
pub open spec fn frame_drawn(
    scene: Scene,
    blend: Seq<RenderBlendMode>,
    commands: Seq<Command>,
) -> FrameState {
    list_step(
        scene,
        FrameState { draw: frame_start_state(), blend },
        commands,
        commands.len() as int,
    )
}

/// The calls of a whole frame: its beginning, its commands, its end.
pub open spec fn frame_output(
    scene: Scene,
    backend: &GlowRenderBackend,
    clear: Rgba8,
    commands: Seq<Command>,
) -> Seq<GlCommand> {
    begin_frame_commands(
        backend.msaa_buffers,
        backend.renderbuffer_width,
        backend.renderbuffer_height,
        backend.is_transparent,
        clear,
    ) + list_output(
        scene,
        FrameState { draw: frame_start_state(), blend: backend.blend_modes@ },
        commands,
        commands.len() as int,
    ) + end_frame_commands(
        backend.msaa_buffers,
        backend.renderbuffer_width,
        backend.renderbuffer_height,
        backend.programs.bitmap,
        backend.bitmap_quad_draws@[0],
    )
}

/// The frame after `commands` were drawn in the blend mode `blend`.
pub open spec fn blend_step(
    scene: Scene,
    frame: FrameState,
    commands: Seq<Command>,
    blend: RenderBlendMode,
) -> FrameState {
    let pushed = FrameState { draw: frame.draw, blend: stack_step(frame.blend, BlendOp::Push(blend)) };
    let drawn = list_step(scene, pushed, commands, commands.len() as int);
    FrameState { draw: drawn.draw, blend: stack_step(drawn.blend, BlendOp::Pop) }
}

/// The calls of `commands` drawn in the blend mode `blend`: the change of mode, the
/// calls of the commands, the change back.
pub open spec fn blend_output(
    scene: Scene,
    frame: FrameState,
    commands: Seq<Command>,
    blend: RenderBlendMode,
) -> Seq<GlCommand> {
    let pushed = FrameState { draw: frame.draw, blend: stack_step(frame.blend, BlendOp::Push(blend)) };
    let drawn = list_step(scene, pushed, commands, commands.len() as int);
    step_commands(frame.blend, BlendOp::Push(blend)) + list_output(
        scene,
        pushed,
        commands,
        commands.len() as int,
    ) + step_commands(drawn.blend, BlendOp::Pop)
}

/// A command leaves the blend stack as it found it: a blend group takes the mode it put
/// on the stack off again, and no other command touches the stack.
pub proof fn lemma_command_keeps_blend_stack(scene: Scene, frame: FrameState, command: Command)
    requires
        frame.blend.len() >= 1,
    ensures
        command_step(scene, frame, command).blend == frame.blend,
    decreases command,
{
    match command {
        Command::Blend(list, mode) => {
            let pushed = FrameState {
                draw: frame.draw,
                blend: stack_step(frame.blend, BlendOp::Push(mode)),
            };
            lemma_list_keeps_blend_stack(
                scene,
                pushed,
                list.commands@,
                list.commands@.len() as int,
            );
            assert(frame.blend.push(mode).drop_last() =~= frame.blend);
        },
        Command::RenderAlphaMask { maskee_commands, mask_commands } => {
            lemma_list_keeps_blend_stack(
                scene,
                frame,
                maskee_commands.commands@,
                maskee_commands.commands@.len() as int,
            );
        },
        _ => {},
    }
}

/// A list of commands leaves the blend stack as it found it.
pub proof fn lemma_list_keeps_blend_stack(
    scene: Scene,
    frame: FrameState,
    commands: Seq<Command>,
    n: int,
)
    requires
        frame.blend.len() >= 1,
    ensures
        list_step(scene, frame, commands, n).blend == frame.blend,
    decreases commands, n,
{
    if 0 < n <= commands.len() {
        lemma_list_keeps_blend_stack(scene, frame, commands, n - 1);
        lemma_command_keeps_blend_stack(
            scene,
            list_step(scene, frame, commands, n - 1),
            commands[n - 1],
        );
    }
}

} // verus!
