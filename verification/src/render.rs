//! What one draw asks of the GPU, given what the GPU is already set up for. The calls
//! come in a fixed order: the stencil setup, the program, the view, world and color
//! uniforms, the uniforms of the fill, the texture, the draw call. A call that would
//! repeat what the GPU already holds is left out.

use vstd::prelude::*;
use crate::arena::{Arena, Entry, Handle};
use crate::gl::{
    ColorTransform, ColorUnits, GlCommand, Mat4, Pipeline, Primitive, Rgba8, TextureId,
    TextureParam, TextureValue,
};
use crate::gradient::{Gradient, GradientInterpolation};
use crate::mask::MaskTracker;
use crate::mesh::{BitmapHandle, Draw, DrawType};
use crate::shader::{set_uniform, ShaderProgram, ShaderUniform, UniformValue, Vec4Value};

verus! {

/// A registered bitmap: its size in pixels and its texture.
#[derive(Clone, Copy, Debug, PartialEq, Eq, Structural)]
pub struct RegistryData {
    pub width: u32,
    pub height: u32,
    pub texture: TextureId,
}

/// The three programs.
#[derive(Clone, Copy, Debug, PartialEq, Eq)]
pub struct Programs {
    pub color: ShaderProgram,
    pub bitmap: ShaderProgram,
    pub gradient: ShaderProgram,
}

impl Programs {
    /// Each program is that of its pipeline.
    pub open spec fn wf(self) -> bool {
        &&& self.color.wf() && self.color.pipeline == Pipeline::Color
        &&& self.bitmap.wf() && self.bitmap.pipeline == Pipeline::Bitmap
        &&& self.gradient.wf() && self.gradient.pipeline == Pipeline::Gradient
    }

    /// The program of `pipeline`.
    pub open spec fn spec_get(self, pipeline: Pipeline) -> ShaderProgram {
        match pipeline {
            Pipeline::Color => self.color,
            Pipeline::Bitmap => self.bitmap,
            Pipeline::Gradient => self.gradient,
        }
    }

    /// The program of `pipeline`.
    pub fn get(&self, pipeline: Pipeline) -> (program: &ShaderProgram)
        requires
            self.wf(),
        ensures
            *program == self.spec_get(pipeline),
            program.pipeline == pipeline,
            program.wf(),
    {
        match pipeline {
            Pipeline::Color => &self.color,
            Pipeline::Bitmap => &self.bitmap,
            Pipeline::Gradient => &self.gradient,
        }
    }
}

/// What the backend knows of the GPU's setup: the stencil setup, the program in use, and
/// the world matrix and the two color uniforms of that program as they were last set.
#[derive(Clone, Copy, Debug, PartialEq, Eq)]
pub struct DrawState {
    pub mask: MaskTracker,
    pub active_program: Option<Pipeline>,
    pub world_matrix: Option<Mat4>,
    pub mult_color: Option<ColorUnits>,
    pub add_color: Option<ColorUnits>,
}

/// The multiply color of a color transform, in 256ths.
pub open spec fn mult_units(transform: ColorTransform) -> ColorUnits {
    ColorUnits {
        r: transform.r_multiply as i32,
        g: transform.g_multiply as i32,
        b: transform.b_multiply as i32,
        a: transform.a_multiply as i32,
    }
}

/// The add color of a color transform, in 255ths.
pub open spec fn add_units(transform: ColorTransform) -> ColorUnits {
    ColorUnits {
        r: transform.r_add as i32,
        g: transform.g_add as i32,
        b: transform.b_add as i32,
        a: transform.a_add as i32,
    }
}

/// The multiply color of a solid quad, in 256ths: each channel of `color` times 255.
pub open spec fn quad_mult_units(color: Rgba8) -> ColorUnits {
    ColorUnits {
        r: (color.r * 65280) as i32,
        g: (color.g * 65280) as i32,
        b: (color.b * 65280) as i32,
        a: (color.a * 65280) as i32,
    }
}

/// The add color of a solid quad: none.
pub open spec fn zero_units() -> ColorUnits {
    ColorUnits { r: 0, g: 0, b: 0, a: 0 }
}

/// The multiply color that leaves a color as it is, in 256ths.
pub open spec fn one_units() -> ColorUnits {
    ColorUnits { r: 256, g: 256, b: 256, a: 256 }
}

/// The multiply color of a color transform, in 256ths.
pub fn mult_rgba(transform: &ColorTransform) -> (units: ColorUnits)
    ensures
        units == mult_units(*transform),
{
    ColorUnits {
        r: transform.r_multiply as i32,
        g: transform.g_multiply as i32,
        b: transform.b_multiply as i32,
        a: transform.a_multiply as i32,
    }
}

/// The add color of a color transform, in 255ths.
pub fn add_rgba(transform: &ColorTransform) -> (units: ColorUnits)
    ensures
        units == add_units(*transform),
{
    ColorUnits {
        r: transform.r_add as i32,
        g: transform.g_add as i32,
        b: transform.b_add as i32,
        a: transform.a_add as i32,
    }
}

/// The state once `pipeline` is in use: a program that comes into use has its world
/// matrix and its color uniforms yet to be set.
pub open spec fn program_state(state: DrawState, pipeline: Pipeline) -> DrawState {
    if state.active_program == Some(pipeline) {
        state
    } else {
        DrawState {
            mask: state.mask,
            active_program: Some(pipeline),
            world_matrix: None,
            mult_color: None,
            add_color: None,
        }
    }
}

/// The calls that bring `program` into use: none if it is in use, else the switch and
/// the view matrix.
pub open spec fn program_commands(state: DrawState, program: ShaderProgram, view: Mat4) -> Seq<
    GlCommand,
> {
    if state.active_program == Some(program.pipeline) {
        seq![]
    } else {
        seq![GlCommand::UseProgram(program.pipeline)] + set_uniform(
            program.spec_location(ShaderUniform::ViewMatrix),
            UniformValue::Matrix4(view),
        )
    }
}

/// The state once the world matrix is `world` and the color uniforms hold `mult` and
/// `add`.
pub open spec fn colors_state(
    state: DrawState,
    world: Mat4,
    mult: ColorUnits,
    add: ColorUnits,
) -> DrawState {
    DrawState {
        mask: state.mask,
        active_program: state.active_program,
        world_matrix: Some(world),
        mult_color: Some(mult),
        add_color: Some(add),
    }
}

/// The calls that set the world matrix and the two color uniforms. Each of the three is
/// set where it differs from the value last set.
pub open spec fn colors_commands(
    state: DrawState,
    program: ShaderProgram,
    world: Mat4,
    mult: ColorUnits,
    add: ColorUnits,
) -> Seq<GlCommand> {
    (if state.world_matrix != Some(world) {
        set_uniform(program.spec_location(ShaderUniform::WorldMatrix), UniformValue::Matrix4(world))
    } else {
        seq![]
    }) + (
    if state.mult_color != Some(mult) {
        set_uniform(
            program.spec_location(ShaderUniform::MultColor),
            UniformValue::Vec4(Vec4Value::Mult(mult)),
        )
    } else {
        seq![]
    }) + (if state.add_color != Some(add) {
        set_uniform(
            program.spec_location(ShaderUniform::AddColor),
            UniformValue::Vec4(Vec4Value::Add(add)),
        )
    } else {
        seq![]
    })
}

/// The state after the common setup of a draw with `program`.
pub open spec fn common_state(
    state: DrawState,
    pipeline: Pipeline,
    world: Mat4,
    mult: ColorUnits,
    add: ColorUnits,
) -> DrawState {
    colors_state(program_state(state, pipeline), world, mult, add)
}

/// The calls of the common setup of a draw: the program, then the world matrix and the
/// colors.
pub open spec fn common_commands(
    state: DrawState,
    program: ShaderProgram,
    view: Mat4,
    world: Mat4,
    mult: ColorUnits,
    add: ColorUnits,
) -> Seq<GlCommand> {
    program_commands(state, program, view) + colors_commands(
        program_state(state, program.pipeline),
        program,
        world,
        mult,
        add,
    )
}

/// Brings `program` into use and sets the world matrix and the colors, adding the calls
/// to `out`.
pub fn set_common_state(
    state: &mut DrawState,
    program: &ShaderProgram,
    view: Mat4,
    world: Mat4,
    mult: ColorUnits,
    add: ColorUnits,
    out: &mut Vec<GlCommand>,
)
    ensures
        *final(state) == common_state(*old(state), program.pipeline, world, mult, add),
        final(out)@ == old(out)@ + common_commands(*old(state), *program, view, world, mult, add),
{
    let active = match state.active_program {
        Some(pipeline) => pipeline == program.pipeline,
        None => false,
    };
    if !active {
        out.push(GlCommand::UseProgram(program.pipeline));
        state.active_program = Some(program.pipeline);
        program.uniform_matrix4fv(ShaderUniform::ViewMatrix, view, out);
        state.world_matrix = None;
        state.mult_color = None;
        state.add_color = None;
    }
    let ghost switched = out@;
    assert(switched == old(out)@ + program_commands(*old(state), *program, view));
    let world_is_set = match state.world_matrix {
        Some(set) => set == world,
        None => false,
    };
    if !world_is_set {
        program.uniform_matrix4fv(ShaderUniform::WorldMatrix, world, out);
        state.world_matrix = Some(world);
    }
    let mult_is_set = match state.mult_color {
        Some(set) => set == mult,
        None => false,
    };
    if !mult_is_set {
        program.uniform4fv(ShaderUniform::MultColor, Vec4Value::Mult(mult), out);
        state.mult_color = Some(mult);
    }
    let add_is_set = match state.add_color {
        Some(set) => set == add,
        None => false,
    };
    if !add_is_set {
        program.uniform4fv(ShaderUniform::AddColor, Vec4Value::Add(add), out);
        state.add_color = Some(add);
    }
    assert(out@ =~= switched + colors_commands(
        program_state(*old(state), program.pipeline),
        *program,
        world,
        mult,
        add,
    ));
    assert(out@ =~= old(out)@ + common_commands(*old(state), *program, view, world, mult, add));
}

/// The texture of the bitmap that `handle` names, if it names one.
pub open spec fn texture_of(
    bitmaps: Map<Handle, Entry<RegistryData>>,
    handle: Option<BitmapHandle>,
) -> Option<TextureId> {
    match handle {
        Some(h) => if bitmaps.dom().contains(h.0) {
            Some(bitmaps[h.0].value.texture)
        } else {
            None
        },
        None => None,
    }
}

/// The sampling filter of a bitmap that is smoothed or not.
pub open spec fn filter_value(smoothed: bool) -> TextureValue {
    if smoothed {
        TextureValue::Linear
    } else {
        TextureValue::Nearest
    }
}

/// The wrapping of a bitmap that repeats or not.
pub open spec fn wrap_value(repeating: bool) -> TextureValue {
    if repeating {
        TextureValue::Repeat
    } else {
        TextureValue::ClampToEdge
    }
}

/// The calls that bind `texture` to unit 0, name that unit to the program and set the
/// texture's filter and wrapping.
pub open spec fn texture_commands(
    program: ShaderProgram,
    texture: TextureId,
    filter: TextureValue,
    wrap: TextureValue,
) -> Seq<GlCommand> {
    seq![GlCommand::ActiveTexture(0), GlCommand::BindTexture(texture)] + set_uniform(
        program.spec_location(ShaderUniform::BitmapTexture),
        UniformValue::Int(0),
    ) + seq![
        GlCommand::TexParameter { param: TextureParam::MagFilter, value: filter },
        GlCommand::TexParameter { param: TextureParam::MinFilter, value: filter },
        GlCommand::TexParameter { param: TextureParam::WrapS, value: wrap },
        GlCommand::TexParameter { param: TextureParam::WrapT, value: wrap },
    ]
}

/// Adds to `out` the calls that bind `texture` and set its sampling.
pub fn bind_texture(
    program: &ShaderProgram,
    texture: TextureId,
    smoothed: bool,
    repeating: bool,
    out: &mut Vec<GlCommand>,
)
    ensures
        final(out)@ == old(out)@ + texture_commands(
            *program,
            texture,
            filter_value(smoothed),
            wrap_value(repeating),
        ),
{
    out.push(GlCommand::ActiveTexture(0));
    out.push(GlCommand::BindTexture(texture));
    program.uniform1i(ShaderUniform::BitmapTexture, 0, out);
    let filter = if smoothed {
        TextureValue::Linear
    } else {
        TextureValue::Nearest
    };
    out.push(GlCommand::TexParameter { param: TextureParam::MagFilter, value: filter });
    out.push(GlCommand::TexParameter { param: TextureParam::MinFilter, value: filter });
    let wrap = if repeating {
        TextureValue::Repeat
    } else {
        TextureValue::ClampToEdge
    };
    out.push(GlCommand::TexParameter { param: TextureParam::WrapS, value: wrap });
    out.push(GlCommand::TexParameter { param: TextureParam::WrapT, value: wrap });
    assert(out@ =~= old(out)@ + texture_commands(
        *program,
        texture,
        filter_value(smoothed),
        wrap_value(repeating),
    ));
}

/// The number the shader knows an interpolation by.
pub open spec fn interpolation_code(interpolation: GradientInterpolation) -> i32 {
    if interpolation == GradientInterpolation::LinearRgb {
        1
    } else {
        0
    }
}

/// The calls that hand a gradient to the gradient program: its matrix, type, stop
/// positions, stop colors, spread, focal point and interpolation.
pub open spec fn gradient_commands(program: ShaderProgram, gradient: Gradient) -> Seq<GlCommand> {
    set_uniform(
        program.spec_location(ShaderUniform::TextureMatrix),
        UniformValue::Matrix3(gradient.matrix),
    ) + set_uniform(
        program.spec_location(ShaderUniform::GradientType),
        UniformValue::Int(gradient.gradient_type),
    ) + set_uniform(
        program.spec_location(ShaderUniform::GradientRatios),
        UniformValue::Ratios(gradient.stops),
    ) + set_uniform(
        program.spec_location(ShaderUniform::GradientColors),
        UniformValue::Vec4(Vec4Value::Stops(gradient.stops)),
    ) + set_uniform(
        program.spec_location(ShaderUniform::GradientRepeatMode),
        UniformValue::Int(gradient.repeat_mode),
    ) + set_uniform(
        program.spec_location(ShaderUniform::GradientFocalPoint),
        UniformValue::FocalPoint(gradient.focal_point),
    ) + set_uniform(
        program.spec_location(ShaderUniform::GradientInterpolation),
        UniformValue::Int(interpolation_code(gradient.interpolation)),
    )
}

/// Adds to `out` the calls that hand `gradient` to the gradient program.
pub fn set_gradient(program: &ShaderProgram, gradient: &Gradient, out: &mut Vec<GlCommand>)
    ensures
        final(out)@ == old(out)@ + gradient_commands(*program, *gradient),
{
    program.uniform_matrix3fv(ShaderUniform::TextureMatrix, gradient.matrix, out);
    program.uniform1i(ShaderUniform::GradientType, gradient.gradient_type, out);
    program.uniform1fv(ShaderUniform::GradientRatios, gradient.stops, out);
    program.uniform4fv(ShaderUniform::GradientColors, Vec4Value::Stops(gradient.stops), out);
    program.uniform1i(ShaderUniform::GradientRepeatMode, gradient.repeat_mode, out);
    program.uniform1f(ShaderUniform::GradientFocalPoint, gradient.focal_point, out);
    let interpolation: i32 = match gradient.interpolation {
        GradientInterpolation::LinearRgb => 1,
        GradientInterpolation::Rgb => 0,
    };
    program.uniform1i(ShaderUniform::GradientInterpolation, interpolation, out);
    assert(out@ =~= old(out)@ + gradient_commands(*program, *gradient));
}

/// How many indices of `draw` count in the current mask phase: the mask indices while a
/// silhouette is painted, else all of them.
pub open spec fn relevant_indices(mask: MaskTracker, draw: Draw) -> i32 {
    if mask.state == crate::mask::MaskState::DrawingMaskStencil || mask.state
        == crate::mask::MaskState::ClearingMaskStencil {
        draw.num_mask_indices
    } else {
        draw.num_indices
    }
}

/// Whether the fill of a draw can be drawn: a bitmap fill needs a bitmap that is
/// registered.
pub open spec fn has_fill(draw_type: DrawType, bitmaps: Map<Handle, Entry<RegistryData>>) -> bool {
    match draw_type {
        DrawType::Bitmap(bitmap) => texture_of(bitmaps, bitmap.handle).is_some(),
        _ => true,
    }
}

/// The calls that set up the fill of a draw: none for a solid color, the gradient for a
/// gradient, the texture matrix and the texture for a bitmap. A bitmap fill whose
/// bitmap is not registered asks for nothing.
pub open spec fn fill_commands(
    program: ShaderProgram,
    draw_type: DrawType,
    bitmaps: Map<Handle, Entry<RegistryData>>,
) -> Seq<GlCommand> {
    match draw_type {
        DrawType::Color => seq![],
        DrawType::Gradient(gradient) => gradient_commands(program, gradient),
        DrawType::Bitmap(bitmap) => match texture_of(bitmaps, bitmap.handle) {
            Some(texture) => set_uniform(
                program.spec_location(ShaderUniform::TextureMatrix),
                UniformValue::Matrix3(bitmap.matrix),
            ) + texture_commands(
                program,
                texture,
                filter_value(bitmap.is_smoothed),
                wrap_value(bitmap.is_repeating),
            ),
            None => seq![],
        },
    }
}

/// What is known of the GPU after `draw`. A draw with no index that counts leaves
/// everything as it is.
pub open spec fn draw_state(
    state: DrawState,
    draw: Draw,
    world: Mat4,
    mult: ColorUnits,
    add: ColorUnits,
) -> DrawState {
    if relevant_indices(state.mask, draw) == 0 {
        state
    } else {
        common_state(state, draw.pipeline(), world, mult, add)
    }
}

/// The calls for one draw of a shape. A draw with no index that counts asks for
/// nothing. Any other binds its vertex array, makes the common setup and sets up its
/// fill; if the fill can be drawn, one draw call for the indices that count ends it.
pub open spec fn draw_commands(
    state: DrawState,
    programs: Programs,
    view: Mat4,
    bitmaps: Map<Handle, Entry<RegistryData>>,
    draw: Draw,
    world: Mat4,
    mult: ColorUnits,
    add: ColorUnits,
) -> Seq<GlCommand> {
    if relevant_indices(state.mask, draw) == 0 {
        seq![]
    } else {
        seq![GlCommand::BindVertexArray(Some(draw.vao))] + common_commands(
            state,
            programs.spec_get(draw.pipeline()),
            view,
            world,
            mult,
            add,
        ) + fill_commands(programs.spec_get(draw.pipeline()), draw.draw_type, bitmaps) + (if has_fill(
            draw.draw_type,
            bitmaps,
        ) {
            seq![
                GlCommand::DrawElements {
                    mode: Primitive::Triangles,
                    count: relevant_indices(state.mask, draw),
                },
            ]
        } else {
            seq![]
        })
    }
}

/// Adds to `out` the calls for one draw of a shape.
pub fn render_draw(
    state: &mut DrawState,
    programs: &Programs,
    view: Mat4,
    bitmaps: &Arena<RegistryData>,
    draw: &Draw,
    world: Mat4,
    mult: ColorUnits,
    add: ColorUnits,
    out: &mut Vec<GlCommand>,
)
    requires
        programs.wf(),
        bitmaps.wf(),
    ensures
        *final(state) == draw_state(*old(state), *draw, world, mult, add),
        final(out)@ == old(out)@ + draw_commands(
            *old(state),
            *programs,
            view,
            bitmaps@,
            *draw,
            world,
            mult,
            add,
        ),
{
    let num_indices = if state.mask.paints_stencil() {
        draw.num_mask_indices
    } else {
        draw.num_indices
    };
    if num_indices == 0 {
        assert(out@ =~= old(out)@ + Seq::<GlCommand>::empty());
        return ;
    }
    out.push(GlCommand::BindVertexArray(Some(draw.vao)));
    let program = match &draw.draw_type {
        DrawType::Color => programs.get(Pipeline::Color),
        DrawType::Gradient(_) => programs.get(Pipeline::Gradient),
        DrawType::Bitmap(_) => programs.get(Pipeline::Bitmap),
    };
    set_common_state(state, program, view, world, mult, add, out);
    let ghost common = out@;
    match &draw.draw_type {
        DrawType::Color => {},
        DrawType::Gradient(gradient) => {
            set_gradient(program, gradient, out);
        },
        DrawType::Bitmap(bitmap) => {
            let texture = match bitmap.handle {
                Some(handle) => match bitmaps.get(handle.0) {
                    Some(entry) => Some(entry.texture),
                    None => None,
                },
                None => None,
            };
            match texture {
                Some(texture) => {
                    program.uniform_matrix3fv(ShaderUniform::TextureMatrix, bitmap.matrix, out);
                    bind_texture(program, texture, bitmap.is_smoothed, bitmap.is_repeating, out);
                },
                None => {
                    assert(out@ =~= old(out)@ + draw_commands(
                        *old(state),
                        *programs,
                        view,
                        bitmaps@,
                        *draw,
                        world,
                        mult,
                        add,
                    ));
                    return ;
                },
            }
        },
    }
    assert(out@ =~= common + fill_commands(*program, draw.draw_type, bitmaps@));
    out.push(GlCommand::DrawElements { mode: Primitive::Triangles, count: num_indices });
    assert(out@ =~= old(out)@ + draw_commands(
        *old(state),
        *programs,
        view,
        bitmaps@,
        *draw,
        world,
        mult,
        add,
    ));
}

/// What is known of the GPU after `draws`, one after the other.
pub open spec fn draws_state(
    state: DrawState,
    draws: Seq<Draw>,
    world: Mat4,
    mult: ColorUnits,
    add: ColorUnits,
) -> DrawState
    decreases draws.len(),
{
    if draws.len() == 0 {
        state
    } else {
        draw_state(
            draws_state(state, draws.drop_last(), world, mult, add),
            draws.last(),
            world,
            mult,
            add,
        )
    }
}

/// The calls for `draws`, one after the other.
pub open spec fn draws_commands(
    state: DrawState,
    programs: Programs,
    view: Mat4,
    bitmaps: Map<Handle, Entry<RegistryData>>,
    draws: Seq<Draw>,
    world: Mat4,
    mult: ColorUnits,
    add: ColorUnits,
) -> Seq<GlCommand>
    decreases draws.len(),
{
    if draws.len() == 0 {
        seq![]
    } else {
        draws_commands(state, programs, view, bitmaps, draws.drop_last(), world, mult, add)
            + draw_commands(
            draws_state(state, draws.drop_last(), world, mult, add),
            programs,
            view,
            bitmaps,
            draws.last(),
            world,
            mult,
            add,
        )
    }
}

/// Adds to `out` the calls for the draws of a shape, in their order.
pub fn render_draws(
    state: &mut DrawState,
    programs: &Programs,
    view: Mat4,
    bitmaps: &Arena<RegistryData>,
    draws: &Vec<Draw>,
    world: Mat4,
    mult: ColorUnits,
    add: ColorUnits,
    out: &mut Vec<GlCommand>,
)
    requires
        programs.wf(),
        bitmaps.wf(),
    ensures
        *final(state) == draws_state(*old(state), draws@, world, mult, add),
        final(state).mask == old(state).mask,
        final(out)@ == old(out)@ + draws_commands(
            *old(state),
            *programs,
            view,
            bitmaps@,
            draws@,
            world,
            mult,
            add,
        ),
{
    let mut i: usize = 0;
    while i < draws.len()
        invariant
            i <= draws.len(),
            programs.wf(),
            bitmaps.wf(),
            state.mask == old(state).mask,
            *state == draws_state(*old(state), draws@.take(i as int), world, mult, add),
            out@ == old(out)@ + draws_commands(
                *old(state),
                *programs,
                view,
                bitmaps@,
                draws@.take(i as int),
                world,
                mult,
                add,
            ),
        decreases draws.len() - i,
    {
        assert(draws@.take(i + 1).drop_last() =~= draws@.take(i as int));
        assert(draws@.take(i + 1).last() == draws@[i as int]);
        render_draw(state, programs, view, bitmaps, &draws[i], world, mult, add, out);
        i = i + 1;
    }
    assert(draws@.take(i as int) =~= draws@);
}

} // verus!
