//! Which draw calls a shape comes to. What is proved here ties registration to
//! rendering: a draw is issued with as many indices as it was registered with, or with
//! as many mask indices while a silhouette is painted, and not at all if that number is
//! zero.

use vstd::prelude::*;
use crate::arena::{Entry, Handle};
use crate::executor::{flushed_state, shape_commands, shape_draws, Scene};
use crate::gl::{ColorUnits, GlCommand, Mat4, TextureId, TextureValue, Transform};
use crate::gradient::Gradient;
use crate::mask::{MaskState, MaskTracker};
use crate::mesh::{Draw, DrawType, ShapeHandle, TessDraw};
use crate::render::{
    colors_commands, common_commands, draw_commands, draw_state, draws_commands, draws_state,
    fill_commands, gradient_commands, has_fill, program_commands, relevant_indices,
    texture_commands, DrawState, Programs, RegistryData,
};
use crate::shader::{set_uniform, ShaderProgram, UniformValue};
use crate::backend::GlowRenderBackend;
use crate::holds::held_bitmap;
use crate::shapes::{lemma_shape_bitmaps_are_registered, registers};

verus! {

/// The index counts of the draw calls among `commands`, in order.
pub open spec fn draw_calls(commands: Seq<GlCommand>) -> Seq<i32>
    decreases commands.len(),
{
    if commands.len() == 0 {
        seq![]
    } else {
        draw_calls(commands.drop_last()) + (match commands.last() {
            GlCommand::DrawElements { mode, count } => seq![count],
            _ => seq![],
        })
    }
}

/// Whether there is no draw call among `commands`.
pub open spec fn no_draw_call(commands: Seq<GlCommand>) -> bool {
    forall|i: int| 0 <= i < commands.len() ==> !((#[trigger] commands[i]) is DrawElements)
}

/// The draw calls of two lists in a row are those of the first, then those of the
/// second.
pub proof fn lemma_draw_calls_concat(a: Seq<GlCommand>, b: Seq<GlCommand>)
    ensures
        draw_calls(a + b) == draw_calls(a) + draw_calls(b),
    decreases b.len(),
{
    if b.len() == 0 {
        assert(a + b =~= a);
    } else {
        lemma_draw_calls_concat(a, b.drop_last());
        assert((a + b).drop_last() =~= a + b.drop_last());
        assert((a + b).last() == b.last());
    }
}

/// A list without a draw call has no draw calls.
pub proof fn lemma_no_draw_calls(commands: Seq<GlCommand>)
    requires
        no_draw_call(commands),
    ensures
        draw_calls(commands) == Seq::<i32>::empty(),
    decreases commands.len(),
{
    if commands.len() > 0 {
        lemma_no_draw_calls(commands.drop_last());
        assert(!(commands[commands.len() - 1] is DrawElements));
    }
}

/// Bringing a program into use and setting the world matrix and the colors makes no
/// draw call.
pub proof fn lemma_common_is_no_draw_call(
    state: DrawState,
    program: ShaderProgram,
    view: Mat4,
    world: Mat4,
    mult: ColorUnits,
    add: ColorUnits,
)
    ensures
        no_draw_call(common_commands(state, program, view, world, mult, add)),
{
    assert(no_draw_call(program_commands(state, program, view)));
    assert(no_draw_call(
        colors_commands(
            crate::render::program_state(state, program.pipeline),
            program,
            world,
            mult,
            add,
        ),
    ));
}

/// Handing a gradient to its program makes no draw call.
pub proof fn lemma_gradient_is_no_draw_call(program: ShaderProgram, gradient: Gradient)
    ensures
        no_draw_call(gradient_commands(program, gradient)),
{
}

/// Binding a texture makes no draw call.
pub proof fn lemma_texture_is_no_draw_call(
    program: ShaderProgram,
    texture: TextureId,
    filter: TextureValue,
    wrap: TextureValue,
)
    ensures
        no_draw_call(texture_commands(program, texture, filter, wrap)),
{
}

/// Setting up a fill makes no draw call.
pub proof fn lemma_fill_is_no_draw_call(
    program: ShaderProgram,
    draw_type: DrawType,
    bitmaps: Map<Handle, Entry<RegistryData>>,
)
    ensures
        no_draw_call(fill_commands(program, draw_type, bitmaps)),
{
    match draw_type {
        DrawType::Color => {},
        DrawType::Gradient(gradient) => {
            lemma_gradient_is_no_draw_call(program, gradient);
        },
        DrawType::Bitmap(bitmap) => {
            match crate::render::texture_of(bitmaps, bitmap.handle) {
                Some(texture) => {
                    lemma_texture_is_no_draw_call(
                        program,
                        texture,
                        crate::render::filter_value(bitmap.is_smoothed),
                        crate::render::wrap_value(bitmap.is_repeating),
                    );
                },
                None => {},
            }
        },
    }
}

/// Installing a stencil setup makes no draw call.
pub proof fn lemma_flush_is_no_draw_call(mask: MaskTracker)
    ensures
        no_draw_call(mask.flush_commands()),
{
}

/// The draw call that `draw` comes to in the mask phase of `mask`: one for the indices
/// that count, if there are any and the fill can be drawn.
pub open spec fn draw_call_of(
    mask: MaskTracker,
    bitmaps: Map<Handle, Entry<RegistryData>>,
    draw: Draw,
) -> Seq<i32> {
    if relevant_indices(mask, draw) != 0 && has_fill(draw.draw_type, bitmaps) {
        seq![relevant_indices(mask, draw)]
    } else {
        seq![]
    }
}

/// The draw calls that `draws` come to, in order.
pub open spec fn draw_calls_of(
    mask: MaskTracker,
    bitmaps: Map<Handle, Entry<RegistryData>>,
    draws: Seq<Draw>,
) -> Seq<i32>
    decreases draws.len(),
{
    if draws.len() == 0 {
        seq![]
    } else {
        draw_calls_of(mask, bitmaps, draws.drop_last()) + draw_call_of(mask, bitmaps, draws.last())
    }
}

/// One draw of a shape comes to one draw call for the indices that count in the mask
/// phase, or to none if no index counts or the fill cannot be drawn.
pub proof fn lemma_draw_issues(
    state: DrawState,
    programs: Programs,
    view: Mat4,
    bitmaps: Map<Handle, Entry<RegistryData>>,
    draw: Draw,
    world: Mat4,
    mult: ColorUnits,
    add: ColorUnits,
)
    ensures
        draw_calls(draw_commands(state, programs, view, bitmaps, draw, world, mult, add))
            == draw_call_of(state.mask, bitmaps, draw),
        draw_state(state, draw, world, mult, add).mask == state.mask,
{
    if relevant_indices(state.mask, draw) != 0 {
        let program = programs.spec_get(draw.pipeline());
        let bind = seq![GlCommand::BindVertexArray(Some(draw.vao))];
        let common = common_commands(state, program, view, world, mult, add);
        let fill = fill_commands(program, draw.draw_type, bitmaps);
        let call = if has_fill(draw.draw_type, bitmaps) {
            seq![
                GlCommand::DrawElements {
                    mode: crate::gl::Primitive::Triangles,
                    count: relevant_indices(state.mask, draw),
                },
            ]
        } else {
            seq![]
        };
        lemma_common_is_no_draw_call(state, program, view, world, mult, add);
        lemma_fill_is_no_draw_call(program, draw.draw_type, bitmaps);
        assert(no_draw_call(bind));
        lemma_no_draw_calls(bind);
        lemma_no_draw_calls(common);
        lemma_no_draw_calls(fill);
        lemma_draw_calls_concat(bind, common);
        lemma_draw_calls_concat(bind + common, fill);
        lemma_draw_calls_concat(bind + common + fill, call);
        if has_fill(draw.draw_type, bitmaps) {
            reveal_with_fuel(draw_calls, 2);
            assert(call.drop_last() =~= Seq::<GlCommand>::empty());
            assert(draw_calls(call) =~= seq![relevant_indices(state.mask, draw)]);
        }
        assert(draw_calls(bind + common + fill + call) =~= draw_call_of(state.mask, bitmaps, draw));
    }
}

/// The draws of a shape come to their draw calls, in order, and leave the mask phase as
/// it is.
pub proof fn lemma_draws_issue(
    state: DrawState,
    programs: Programs,
    view: Mat4,
    bitmaps: Map<Handle, Entry<RegistryData>>,
    draws: Seq<Draw>,
    world: Mat4,
    mult: ColorUnits,
    add: ColorUnits,
)
    ensures
        draw_calls(draws_commands(state, programs, view, bitmaps, draws, world, mult, add))
            == draw_calls_of(state.mask, bitmaps, draws),
        draws_state(state, draws, world, mult, add).mask == state.mask,
    decreases draws.len(),
{
    if draws.len() > 0 {
        let before = draws_state(state, draws.drop_last(), world, mult, add);
        lemma_draws_issue(state, programs, view, bitmaps, draws.drop_last(), world, mult, add);
        lemma_draw_issues(before, programs, view, bitmaps, draws.last(), world, mult, add);
        lemma_draw_calls_concat(
            draws_commands(state, programs, view, bitmaps, draws.drop_last(), world, mult, add),
            draw_commands(before, programs, view, bitmaps, draws.last(), world, mult, add),
        );
    }
}

/// How many indices of a tessellated draw count while a silhouette is painted, or
/// while none is.
pub open spec fn tess_indices(draw: TessDraw, silhouette: bool) -> int {
    if silhouette {
        draw.mask_index_count as int
    } else {
        draw.indices@.len() as int
    }
}

/// The draw calls that tessellated draws come to once registered, if each of their
/// fills can be drawn: one per draw that has an index that counts, with that many
/// indices.
pub open spec fn tess_draw_calls(draws: Seq<TessDraw>, silhouette: bool) -> Seq<i32>
    decreases draws.len(),
{
    if draws.len() == 0 {
        seq![]
    } else {
        tess_draw_calls(draws.drop_last(), silhouette) + (if tess_indices(draws.last(), silhouette)
            != 0 {
            seq![tess_indices(draws.last(), silhouette) as i32]
        } else {
            seq![]
        })
    }
}

/// Whether draws in the mask phase `state` paint a silhouette.
pub open spec fn paints_silhouette(state: MaskState) -> bool {
    state == MaskState::DrawingMaskStencil || state == MaskState::ClearingMaskStencil
}

/// The draw calls of registered draws are those of the tessellated draws they were
/// registered for.
pub proof fn lemma_registered_draw_calls(
    mask: MaskTracker,
    bitmaps: Map<Handle, Entry<RegistryData>>,
    registered: Seq<Draw>,
    draws: Seq<TessDraw>,
)
    requires
        registered.len() == draws.len(),
        forall|i: int|
            0 <= i < draws.len() ==> (#[trigger] registered[i]).num_indices == draws[i].indices@.len()
                && registered[i].num_mask_indices == draws[i].mask_index_count,
        forall|i: int| 0 <= i < draws.len() ==> has_fill((#[trigger] registered[i]).draw_type, bitmaps),
    ensures
        draw_calls_of(mask, bitmaps, registered) == tess_draw_calls(
            draws,
            paints_silhouette(mask.state),
        ),
    decreases draws.len(),
{
    if draws.len() > 0 {
        assert(registered.drop_last().len() == draws.drop_last().len());
        assert forall|i: int| 0 <= i < draws.drop_last().len() implies (
        #[trigger] registered.drop_last()[i]).num_indices == draws.drop_last()[i].indices@.len()
            && registered.drop_last()[i].num_mask_indices == draws.drop_last()[i].mask_index_count
            && has_fill(registered.drop_last()[i].draw_type, bitmaps) by {
            assert(registered.drop_last()[i] == registered[i]);
        }
        lemma_registered_draw_calls(mask, bitmaps, registered.drop_last(), draws.drop_last());
        assert(registered.last() == registered[draws.len() - 1]);
    }
}

/// Registering and then rendering: a shape whose draws were registered for `draws`, and
/// whose fills can all be drawn, is rendered with one draw call for each of `draws`
/// that has an index that counts in the mask phase, with exactly that many indices:
/// all of the draw's indices while no silhouette is painted, its mask indices while
/// one is. A draw with no index that counts is not issued at all.
pub proof fn lemma_shape_round_trip(
    scene: Scene,
    state: DrawState,
    shape: ShapeHandle,
    transform: Transform,
    draws: Seq<TessDraw>,
    first: u64,
    bitmaps_then: Seq<Map<Handle, Entry<RegistryData>>>,
)
    requires
        scene.shapes.dom().contains(shape.0),
        scene.shapes[shape.0].value.draws@.len() == draws.len(),
        bitmaps_then.len() == draws.len(),
        forall|i: int|
            0 <= i < draws.len() ==> registers(
                #[trigger] scene.shapes[shape.0].value.draws@[i],
                draws[i],
                (first + 3 * i) as u64,
                bitmaps_then[i],
            ),
        forall|i: int|
            0 <= i < draws.len() ==> has_fill(
                (#[trigger] scene.shapes[shape.0].value.draws@[i]).draw_type,
                scene.bitmaps,
            ),
    ensures
        draw_calls(shape_commands(scene, state, shape, transform)) == tess_draw_calls(
            draws,
            paints_silhouette(state.mask.state),
        ),
{
    let registered = shape_draws(scene, shape);
    let flushed = flushed_state(state);
    let world = Mat4::World(transform.matrix);
    let mult = crate::render::mult_units(transform.color_transform);
    let add = crate::render::add_units(transform.color_transform);
    lemma_flush_is_no_draw_call(state.mask);
    lemma_no_draw_calls(state.mask.flush_commands());
    lemma_draws_issue(flushed, scene.programs, scene.view, scene.bitmaps, registered, world, mult, add);
    lemma_draw_calls_concat(
        state.mask.flush_commands(),
        draws_commands(flushed, scene.programs, scene.view, scene.bitmaps, registered, world, mult, add),
    );
    lemma_registered_draw_calls(flushed.mask, scene.bitmaps, registered, draws);
}

/// Registering and then rendering, for a backend as it stands: a registered shape none
/// of whose draws is a bitmap fill without a bitmap is rendered with one draw call for
/// each of the draws it was registered for that has an index that counts in the mask
/// phase, with exactly that many indices. That the bitmaps of its fills are still
/// registered need not be asked: the shape holds them.
pub proof fn lemma_registered_shape_is_drawn(
    backend: &GlowRenderBackend,
    shape: ShapeHandle,
    transform: Transform,
    draws: Seq<TessDraw>,
    first: u64,
    bitmaps_then: Seq<Map<Handle, Entry<RegistryData>>>,
)
    requires
        backend.wf(),
        backend.shapes@.dom().contains(shape.0),
        backend.shapes@[shape.0].value.draws@.len() == draws.len(),
        bitmaps_then.len() == draws.len(),
        forall|i: int|
            0 <= i < draws.len() ==> registers(
                #[trigger] backend.shapes@[shape.0].value.draws@[i],
                draws[i],
                (first + 3 * i) as u64,
                bitmaps_then[i],
            ),
        forall|i: int|
            0 <= i < draws.len() ==> ((#[trigger] backend.shapes@[shape.0].value.draws@[i]).draw_type
                is Bitmap ==> held_bitmap(backend.shapes@[shape.0].value.draws@[i]).is_some()),
    ensures
        draw_calls(shape_commands(backend.scene(), backend.state, shape, transform))
            == tess_draw_calls(draws, paints_silhouette(backend.state.mask.state)),
{
    let registered = backend.shapes@[shape.0].value.draws@;
    assert forall|i: int| 0 <= i < draws.len() implies has_fill(
        (#[trigger] registered[i]).draw_type,
        backend.bitmaps@,
    ) by {
        if registered[i].draw_type is Bitmap {
            lemma_shape_bitmaps_are_registered(backend, shape, i, held_bitmap(registered[i])->0);
        }
    }
    lemma_shape_round_trip(
        backend.scene(),
        backend.state,
        shape,
        transform,
        draws,
        first,
        bitmaps_then,
    );
}

} // verus!
