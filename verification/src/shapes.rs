//! The shape registry: a tessellated shape becomes buffers on the GPU and a list of
//! draws behind a handle that is counted. A shape does not change once registered. Its
//! buffers are deleted when the last reference to it is given up. Until then it pins
//! the bitmaps it draws with, so that they stay registered.

use vstd::prelude::*;
use crate::arena::{
    can_pin, can_retain, is_last, is_last_pin, pinned, released, retained, unpinned, Entry, Handle,
};
use crate::backend::GlowRenderBackend;
use crate::bytes::is_memory_image;
use crate::error::Error;
use crate::gl::{GlBatch, GlCommand, Pipeline};
use crate::gradient::{gradient_made_from, Gradient};
use crate::holds::{
    draws_hold, held_bitmap, holds_counted, lemma_draws_hold_first, lemma_draws_hold_push,
    lemma_held_bitmap_is_registered, lemma_meshes_hold_push, lemma_meshes_hold_update,
    meshes_hold, pins_of,
};
use crate::mesh::{
    index_buffer_at, upload_commands, upload_mesh, vao_at, vertex_buffer_at, vertex_buffer_words,
    vertex_words, BitmapDraw, BitmapHandle, Draw, DrawType, Mesh, ShapeHandle, TessDraw,
    TessDrawType,
};
use crate::render::{Programs, RegistryData};

verus! {

/// Whether the GPU can take every one of `draws`.
pub open spec fn all_drawable(draws: Seq<TessDraw>) -> bool {
    forall|i: int| 0 <= i < draws.len() ==> (#[trigger] draws[i]).drawable()
}

/// Whether there are identifiers left for the GPU objects of `n` draws, three each.
pub open spec fn ids_available(next_id: u64, n: int) -> bool {
    next_id + 3 * n <= u64::MAX
}

/// The handle a registered draw keeps for its bitmap: the one it was given if a pin on
/// that bitmap could be counted, else none.
pub open spec fn kept_handle(
    bitmaps: Map<Handle, Entry<RegistryData>>,
    handle: Option<BitmapHandle>,
) -> Option<BitmapHandle> {
    match handle {
        Some(h) => if can_pin(bitmaps, h.0) {
            Some(h)
        } else {
            None
        },
        None => None,
    }
}

/// The bitmap registry after a draw with that fill was registered: a bitmap fill pins
/// its bitmap.
pub open spec fn fill_pinned(
    bitmaps: Map<Handle, Entry<RegistryData>>,
    fill: TessDrawType,
) -> Map<Handle, Entry<RegistryData>> {
    match fill {
        TessDrawType::Bitmap(bitmap) => match bitmap.handle {
            Some(h) => pinned(bitmaps, h.0),
            None => bitmaps,
        },
        _ => bitmaps,
    }
}

/// The bitmap registry after `draws` were registered, one after the other.
pub open spec fn pinned_by(
    bitmaps: Map<Handle, Entry<RegistryData>>,
    draws: Seq<TessDraw>,
) -> Map<Handle, Entry<RegistryData>>
    decreases draws.len(),
{
    if draws.len() == 0 {
        bitmaps
    } else {
        fill_pinned(pinned_by(bitmaps, draws.drop_last()), draws.last().draw_type)
    }
}

/// Whether `made` is the fill registered for `fill`, with the bitmap registry as it was
/// when the draw's turn came.
pub open spec fn registers_fill(
    made: DrawType,
    fill: TessDrawType,
    bitmaps: Map<Handle, Entry<RegistryData>>,
) -> bool {
    match fill {
        TessDrawType::Color => made == DrawType::Color,
        TessDrawType::Gradient { matrix, gradient } => {
            &&& made matches DrawType::Gradient(g)
            &&& gradient_made_from(g, gradient, matrix)
            &&& g.wf()
        },
        TessDrawType::Bitmap(bitmap) => made == DrawType::Bitmap(
            BitmapDraw {
                matrix: bitmap.matrix,
                handle: kept_handle(bitmaps, bitmap.handle),
                is_repeating: bitmap.is_repeating,
                is_smoothed: bitmap.is_smoothed,
            },
        ),
    }
}

/// Whether `made` is the draw registered for `draw`: its GPU objects take their
/// identifiers from `first` on, and it has as many indices and mask indices as `draw`.
pub open spec fn registers(
    made: Draw,
    draw: TessDraw,
    first: u64,
    bitmaps: Map<Handle, Entry<RegistryData>>,
) -> bool {
    &&& registers_fill(made.draw_type, draw.draw_type, bitmaps)
    &&& made.vao == vao_at(first)
    &&& made.vertex_buffer == vertex_buffer_at(first)
    &&& made.index_buffer == index_buffer_at(first)
    &&& made.num_indices == draw.indices@.len()
    &&& made.num_mask_indices == draw.mask_index_count
}

/// The calls that bring `draws` onto the GPU, one after the other. Draw `i` takes the
/// identifiers from `first + 3 * i` on and the byte strings `blob + 2 * i` and the one
/// after it.
pub open spec fn shape_upload_commands(
    draws: Seq<TessDraw>,
    programs: Programs,
    first: u64,
    blob: int,
) -> Seq<GlCommand>
    decreases draws.len(),
{
    if draws.len() == 0 {
        seq![]
    } else {
        shape_upload_commands(draws.drop_last(), programs, first, blob) + upload_commands(
            (first + 3 * (draws.len() - 1)) as u64,
            programs.spec_get(draws.last().pipeline()),
            blob + 2 * (draws.len() - 1),
        )
    }
}

/// The calls that delete the vertex arrays of `draws`.
pub open spec fn vertex_array_deletes(draws: Seq<Draw>) -> Seq<GlCommand> {
    Seq::new(draws.len(), |i: int| GlCommand::DeleteVertexArray(draws[i].vao))
}

/// The calls that giving up one pin on a bitmap asks for: the texture is deleted with
/// the last pin on a bitmap to which no reference is left, and only then.
pub open spec fn unpin_bitmap_commands(
    bitmaps: Map<Handle, Entry<RegistryData>>,
    handle: BitmapHandle,
) -> Seq<GlCommand> {
    if is_last_pin(bitmaps, handle.0) {
        seq![GlCommand::DeleteTexture(bitmaps[handle.0].value.texture)]
    } else {
        seq![]
    }
}

/// The bitmap registry after `draw` gave up the pin it holds.
pub open spec fn draw_released(
    bitmaps: Map<Handle, Entry<RegistryData>>,
    draw: Draw,
) -> Map<Handle, Entry<RegistryData>> {
    match held_bitmap(draw) {
        Some(h) => unpinned(bitmaps, h.0),
        None => bitmaps,
    }
}

/// The calls that take `draw` off the GPU once its vertex array is gone: the texture of
/// its bitmap if the draw was the last to hold it, then its two buffers.
pub open spec fn draw_delete_commands(
    bitmaps: Map<Handle, Entry<RegistryData>>,
    draw: Draw,
) -> Seq<GlCommand> {
    (match held_bitmap(draw) {
        Some(h) => unpin_bitmap_commands(bitmaps, h),
        None => seq![],
    }) + seq![
        GlCommand::DeleteBuffer(draw.vertex_buffer),
        GlCommand::DeleteBuffer(draw.index_buffer),
    ]
}

/// The bitmap registry after `draws` gave up their pins, one after the other.
pub open spec fn draws_released(
    bitmaps: Map<Handle, Entry<RegistryData>>,
    draws: Seq<Draw>,
) -> Map<Handle, Entry<RegistryData>>
    decreases draws.len(),
{
    if draws.len() == 0 {
        bitmaps
    } else {
        draw_released(draws_released(bitmaps, draws.drop_last()), draws.last())
    }
}

/// The calls that take `draws` off the GPU once their vertex arrays are gone.
pub open spec fn draws_delete_commands(
    bitmaps: Map<Handle, Entry<RegistryData>>,
    draws: Seq<Draw>,
) -> Seq<GlCommand>
    decreases draws.len(),
{
    if draws.len() == 0 {
        seq![]
    } else {
        draws_delete_commands(bitmaps, draws.drop_last()) + draw_delete_commands(
            draws_released(bitmaps, draws.drop_last()),
            draws.last(),
        )
    }
}

/// The calls that giving up one reference to a shape asks for. With the last reference
/// the vertex arrays of its draws are deleted, then each draw's pin on its bitmap is
/// given up and its buffers are deleted. In every other case no call is made.
pub open spec fn release_shape_commands(
    shapes: Map<Handle, Entry<Mesh>>,
    bitmaps: Map<Handle, Entry<RegistryData>>,
    shape: ShapeHandle,
) -> Seq<GlCommand> {
    if is_last(shapes, shape.0) {
        vertex_array_deletes(shapes[shape.0].value.draws@) + draws_delete_commands(
            bitmaps,
            shapes[shape.0].value.draws@,
        )
    } else {
        seq![]
    }
}

/// The bitmap registry after one reference to a shape was given up.
pub open spec fn release_shape_bitmaps(
    shapes: Map<Handle, Entry<Mesh>>,
    bitmaps: Map<Handle, Entry<RegistryData>>,
    shape: ShapeHandle,
) -> Map<Handle, Entry<RegistryData>> {
    if is_last(shapes, shape.0) {
        draws_released(bitmaps, shapes[shape.0].value.draws@)
    } else {
        bitmaps
    }
}

/// Whether the GPU can take every one of `draws`.
pub fn are_drawable(draws: &Vec<TessDraw>) -> (ok: bool)
    ensures
        ok == all_drawable(draws@),
{
    let mut i: usize = 0;
    while i < draws.len()
        invariant
            i <= draws.len(),
            forall|j: int| 0 <= j < i ==> (#[trigger] draws@[j]).drawable(),
        decreases draws.len() - i,
    {
        if !draws[i].is_drawable() {
            return false;
        }
        i = i + 1;
    }
    true
}

impl GlowRenderBackend {
    /// Everything but the two registries and the next identifier is as it is in
    /// `before`.
    pub open spec fn same_but_registries(&self, before: &GlowRenderBackend) -> bool {
        &&& self.msaa_buffers == before.msaa_buffers
        &&& self.programs == before.programs
        &&& self.color_quad_draws == before.color_quad_draws
        &&& self.bitmap_quad_draws == before.bitmap_quad_draws
        &&& self.state == before.state
        &&& self.is_transparent == before.is_transparent
        &&& self.blend_modes == before.blend_modes
        &&& self.renderbuffer_width == before.renderbuffer_width
        &&& self.renderbuffer_height == before.renderbuffer_height
        &&& self.view_matrix == before.view_matrix
        &&& self.viewport_scale_factor == before.viewport_scale_factor
    }

    /// Whether a tessellated shape can be brought onto the GPU, and if not, why: if the
    /// GPU cannot take one of the draws the answer is `UnableToCreateBuffer`; if there
    /// are not three identifiers left for each draw it is `UnableToCreateVAO`.
    pub fn can_register(&self, draws: &Vec<TessDraw>) -> (checked: Result<(), Error>)
        ensures
            !all_drawable(draws@) ==> checked == Err::<(), Error>(Error::UnableToCreateBuffer),
            all_drawable(draws@) && !ids_available(self.next_id, draws@.len() as int) ==> checked
                == Err::<(), Error>(Error::UnableToCreateVAO),
            checked.is_ok() <==> all_drawable(draws@) && ids_available(
                self.next_id,
                draws@.len() as int,
            ),
    {
        if !are_drawable(draws) {
            return Err(Error::UnableToCreateBuffer);
        }
        if (0xffff_ffff_ffff_ffff - self.next_id) / 3 < draws.len() as u64 {
            return Err(Error::UnableToCreateVAO);
        }
        Ok(())
    }

    /// Brings the draws of a tessellated shape onto the GPU and hands back the draws to
    /// register. The calls and the byte strings of the vertex and index buffers are
    /// added to `batch`; a draw with a bitmap fill pins its bitmap. The draws are then
    /// owed to the registry: the backend is well formed with them pending.
    ///
    /// If the GPU cannot take one of the draws the answer is `UnableToCreateBuffer`; if
    /// there are not three identifiers left for each draw it is `UnableToCreateVAO`.
    /// Nothing changes then.
    fn register_shape_internal(&mut self, draws: &Vec<TessDraw>, batch: &mut GlBatch) -> (made:
        Result<Vec<Draw>, Error>)
        requires
            old(self).wf(),
        ensures
            !all_drawable(draws@) ==> made == Err::<Vec<Draw>, Error>(Error::UnableToCreateBuffer),
            all_drawable(draws@) && !ids_available(old(self).next_id, draws@.len() as int) ==> made
                == Err::<Vec<Draw>, Error>(Error::UnableToCreateVAO),
            made.is_ok() <==> all_drawable(draws@) && ids_available(
                old(self).next_id,
                draws@.len() as int,
            ),
            made.is_err() ==> final(self).bitmaps == old(self).bitmaps,
            made.is_err() ==> final(self).next_id == old(self).next_id,
            made.is_err() ==> *final(batch) == *old(batch),
            made matches Ok(registered) ==> {
                &&& registered@.len() == draws@.len()
                &&& forall|i: int|
                    0 <= i < draws@.len() ==> registers(
                        #[trigger] registered@[i],
                        draws@[i],
                        (old(self).next_id + 3 * i) as u64,
                        pinned_by(old(self).bitmaps@, draws@.take(i)),
                    )
                &&& final(self).bitmaps@ == pinned_by(old(self).bitmaps@, draws@)
                &&& final(self).next_id == old(self).next_id + 3 * draws@.len()
                &&& final(batch).commands@ == old(batch).commands@ + shape_upload_commands(
                    draws@,
                    old(self).programs,
                    old(self).next_id,
                    old(batch).blobs@.len() as int,
                )
                &&& final(batch).blobs@.len() == old(batch).blobs@.len() + 2 * draws@.len()
                &&& forall|k: int|
                    0 <= k < old(batch).blobs@.len() ==> #[trigger] final(batch).blobs@[k]
                        == old(batch).blobs@[k]
                &&& forall|i: int|
                    0 <= i < draws@.len() ==> is_memory_image(
                        vertex_words(draws@[i].vertices@),
                        #[trigger] final(batch).blob(old(batch).blobs@.len() + 2 * i),
                    )
                &&& forall|i: int|
                    0 <= i < draws@.len() ==> is_memory_image(
                        draws@[i].indices@,
                        #[trigger] final(batch).blob(old(batch).blobs@.len() + 2 * i + 1),
                    )
            },
            final(self).shapes == old(self).shapes,
            final(self).same_but_registries(old(self)),
            made matches Ok(registered) ==> final(self).wf_with(registered@),
            made.is_err() ==> final(self).wf(),
    {
        match self.can_register(draws) {
            Ok(()) => {},
            Err(e) => {
                return Err(e);
            },
        }
        let first = self.next_id;
        let ghost base = batch.blobs@.len() as int;
        let mut registered: Vec<Draw> = Vec::new();
        let mut i: usize = 0;
        while i < draws.len()
            invariant
                i <= draws.len(),
                all_drawable(draws@),
                first == old(self).next_id,
                first + 3 * draws@.len() <= u64::MAX,
                base == old(batch).blobs@.len(),
                self.wf_with(registered@),
                self.next_id == first + 3 * i,
                self.shapes == old(self).shapes,
                self.same_but_registries(old(self)),
                self.bitmaps@ == pinned_by(old(self).bitmaps@, draws@.take(i as int)),
                registered@.len() == i,
                forall|j: int|
                    0 <= j < i ==> registers(
                        #[trigger] registered@[j],
                        draws@[j],
                        (first + 3 * j) as u64,
                        pinned_by(old(self).bitmaps@, draws@.take(j)),
                    ),
                batch.commands@ == old(batch).commands@ + shape_upload_commands(
                    draws@.take(i as int),
                    self.programs,
                    first,
                    base,
                ),
                batch.blobs@.len() == base + 2 * i,
                forall|k: int| 0 <= k < base ==> #[trigger] batch.blobs@[k] == old(batch).blobs@[k],
                forall|j: int|
                    0 <= j < i ==> is_memory_image(
                        vertex_words(draws@[j].vertices@),
                        #[trigger] batch.blob(base + 2 * j),
                    ),
                forall|j: int|
                    0 <= j < i ==> is_memory_image(
                        draws@[j].indices@,
                        #[trigger] batch.blob(base + 2 * j + 1),
                    ),
            decreases draws.len() - i,
        {
            let draw = &draws[i];
            let ghost pinned_before = self.bitmaps@;
            let ghost registered_before = registered@;
            assert(draw.drawable());
            let ghost batch_before = *batch;
            assert(draws@.take(i + 1).drop_last() =~= draws@.take(i as int));
            assert(draws@.take(i + 1).last() == draws@[i as int]);
            let num_indices = draw.indices.len() as i32;
            let num_mask_indices = draw.mask_index_count as i32;
            let id = self.next_id;
            let pipeline = match draw.draw_type {
                TessDrawType::Color => Pipeline::Color,
                TessDrawType::Gradient { .. } => Pipeline::Gradient,
                TessDrawType::Bitmap(_) => Pipeline::Bitmap,
            };
            let words = vertex_buffer_words(&draw.vertices);
            upload_mesh(id, self.programs.get(pipeline), &words, &draw.indices, batch);
            let draw_type = match &draw.draw_type {
                TessDrawType::Color => DrawType::Color,
                TessDrawType::Gradient { matrix, gradient } => DrawType::Gradient(
                    Gradient::new(gradient, *matrix),
                ),
                TessDrawType::Bitmap(bitmap) => {
                    let handle = match bitmap.handle {
                        Some(h) => if self.bitmaps.pin(h.0) {
                            Some(h)
                        } else {
                            None
                        },
                        None => None,
                    };
                    DrawType::Bitmap(
                        BitmapDraw {
                            matrix: bitmap.matrix,
                            handle,
                            is_repeating: bitmap.is_repeating,
                            is_smoothed: bitmap.is_smoothed,
                        },
                    )
                },
            };
            registered.push(
                Draw {
                    draw_type,
                    vertex_buffer: crate::gl::BufferId(id + 1),
                    index_buffer: crate::gl::BufferId(id + 2),
                    vao: crate::gl::VertexArrayId(id),
                    num_indices,
                    num_mask_indices,
                },
            );
            self.next_id = id + 3;
            proof {
                assert forall|h: Handle|
                    pins_of(self.bitmaps@, h) == #[trigger] meshes_hold(self.shapes.values(), h)
                        + draws_hold(registered@, h) by {
                    lemma_draws_hold_push(registered_before, registered@.last(), h);
                    assert(registered@ =~= registered_before.push(registered@.last()));
                    assert(pins_of(pinned_before, h) == meshes_hold(self.shapes.values(), h)
                        + draws_hold(registered_before, h));
                }
                assert(batch.commands@ =~= old(batch).commands@ + shape_upload_commands(
                    draws@.take(i + 1),
                    self.programs,
                    first,
                    base,
                ));
                assert forall|j: int| 0 <= j < i + 1 implies is_memory_image(
                    vertex_words(draws@[j].vertices@),
                    #[trigger] batch.blob(base + 2 * j),
                ) by {
                    if j < i {
                        assert(batch.blobs@[base + 2 * j] == batch_before.blobs@[base + 2 * j]);
                        assert(is_memory_image(
                            vertex_words(draws@[j].vertices@),
                            batch_before.blob(base + 2 * j),
                        ));
                    }
                }
                assert forall|j: int| 0 <= j < i + 1 implies is_memory_image(
                    draws@[j].indices@,
                    #[trigger] batch.blob(base + 2 * j + 1),
                ) by {
                    if j < i {
                        assert(batch.blobs@[base + 2 * j + 1] == batch_before.blobs@[base + 2 * j
                            + 1]);
                        assert(is_memory_image(
                            draws@[j].indices@,
                            batch_before.blob(base + 2 * j + 1),
                        ));
                    }
                }
            }
            i = i + 1;
        }
        assert(draws@.take(i as int) =~= draws@);
        Ok(registered)
    }

    /// Registers a tessellated shape under a new handle, with one reference, and hands
    /// back the calls and byte strings that bring it onto the GPU. Each draw with a
    /// bitmap fill pins its bitmap. If the shape cannot be brought onto the GPU it is
    /// registered without any draw, so that it draws as nothing, and no call is made.
    pub fn register_shape(&mut self, draws: &Vec<TessDraw>) -> (made: (ShapeHandle, GlBatch))
        requires
            old(self).wf(),
        ensures
            !old(self).shapes@.dom().contains(made.0.0),
            final(self).shapes@.dom() == old(self).shapes@.dom().insert(made.0.0),
            forall|h: Handle|
                old(self).shapes@.dom().contains(h) ==> #[trigger] final(self).shapes@[h]
                    == old(self).shapes@[h],
            final(self).shapes@[made.0.0].refs == 1,
            all_drawable(draws@) && ids_available(old(self).next_id, draws@.len() as int) ==> {
                let registered = final(self).shapes@[made.0.0].value.draws@;
                &&& registered.len() == draws@.len()
                &&& forall|i: int|
                    0 <= i < draws@.len() ==> registers(
                        #[trigger] registered[i],
                        draws@[i],
                        (old(self).next_id + 3 * i) as u64,
                        pinned_by(old(self).bitmaps@, draws@.take(i)),
                    )
                &&& final(self).bitmaps@ == pinned_by(old(self).bitmaps@, draws@)
                &&& final(self).next_id == old(self).next_id + 3 * draws@.len()
                &&& made.1.commands@ == shape_upload_commands(
                    draws@,
                    old(self).programs,
                    old(self).next_id,
                    0,
                )
                &&& made.1.blobs@.len() == 2 * draws@.len()
                &&& forall|i: int|
                    0 <= i < draws@.len() ==> is_memory_image(
                        vertex_words(draws@[i].vertices@),
                        #[trigger] made.1.blob(2 * i),
                    )
                &&& forall|i: int|
                    0 <= i < draws@.len() ==> is_memory_image(
                        draws@[i].indices@,
                        #[trigger] made.1.blob(2 * i + 1),
                    )
            },
            !(all_drawable(draws@) && ids_available(old(self).next_id, draws@.len() as int)) ==> {
                &&& final(self).shapes@[made.0.0].value.draws@.len() == 0
                &&& final(self).bitmaps == old(self).bitmaps
                &&& final(self).next_id == old(self).next_id
                &&& made.1.commands@.len() == 0
                &&& made.1.blobs@.len() == 0
            },
            final(self).same_but_registries(old(self)),
            final(self).wf(),
    {
        let mut batch = GlBatch::new();
        let mesh = match self.register_shape_internal(draws, &mut batch) {
            Ok(registered) => Mesh { draws: registered },
            Err(_) => Mesh { draws: Vec::new() },
        };
        let ghost registered = mesh.draws@;
        let ghost meshes = self.shapes.values();
        let ghost inserted = mesh;
        let handle = self.shapes.insert(mesh);
        proof {
            assert forall|h: Handle|
                pins_of(self.bitmaps@, h) == #[trigger] meshes_hold(self.shapes.values(), h)
                    + draws_hold(Seq::<Draw>::empty(), h) by {
                assert(pins_of(self.bitmaps@, h) == meshes_hold(meshes, h) + draws_hold(
                    registered,
                    h,
                ));
                if handle.index < meshes.len() {
                    lemma_meshes_hold_update(meshes, handle.index as int, Some(inserted), h);
                } else {
                    lemma_meshes_hold_push(meshes, Some(inserted), h);
                }
            }
            assert(self.shapes@[handle].value.draws@ == registered);
            assert(self.shapes@.dom() =~= old(self).shapes@.dom().insert(handle));
            if all_drawable(draws@) && ids_available(old(self).next_id, draws@.len() as int) {
                assert forall|i: int| 0 <= i < draws@.len() implies is_memory_image(
                    vertex_words(draws@[i].vertices@),
                    #[trigger] batch.blob(2 * i),
                ) by {
                    assert(is_memory_image(vertex_words(draws@[i].vertices@), batch.blob(0 + 2 * i)));
                }
                assert forall|i: int| 0 <= i < draws@.len() implies is_memory_image(
                    draws@[i].indices@,
                    #[trigger] batch.blob(2 * i + 1),
                ) by {
                    assert(is_memory_image(draws@[i].indices@, batch.blob(0 + 2 * i + 1)));
                }
            }
        }
        (ShapeHandle(handle), batch)
    }

    /// Takes the driver's answer to the upload of a shape that was just registered. If
    /// the upload was done the shape stays as it is. If the driver refused it, the
    /// reference to the shape is given up, so that its GPU objects are deleted and its
    /// bitmaps let go, and a shape without draws is registered in its place, which draws
    /// as nothing. The handle to go on with and the calls that clean up come back.
    pub fn settle_shape(&mut self, shape: ShapeHandle, uploaded: bool) -> (made: (
        ShapeHandle,
        Vec<GlCommand>,
    ))
        requires
            old(self).wf(),
        ensures
            uploaded ==> {
                &&& made.0 == shape
                &&& made.1@.len() == 0
                &&& final(self).shapes == old(self).shapes
                &&& final(self).bitmaps == old(self).bitmaps
            },
            !uploaded ==> {
                let rest = released(old(self).shapes@, shape.0);
                &&& made.1@ == release_shape_commands(old(self).shapes@, old(self).bitmaps@, shape)
                &&& final(self).bitmaps@ == release_shape_bitmaps(
                    old(self).shapes@,
                    old(self).bitmaps@,
                    shape,
                )
                &&& !rest.dom().contains(made.0.0)
                &&& final(self).shapes@.dom() == rest.dom().insert(made.0.0)
                &&& forall|h: Handle|
                    rest.dom().contains(h) ==> #[trigger] final(self).shapes@[h] == rest[h]
                &&& final(self).shapes@[made.0.0].refs == 1
                &&& final(self).shapes@[made.0.0].value.draws@.len() == 0
            },
            final(self).next_id == old(self).next_id,
            final(self).same_but_registries(old(self)),
            final(self).wf(),
    {
        if uploaded {
            return (shape, Vec::new());
        }
        let out = self.release_shape(shape);
        let nothing: Vec<TessDraw> = Vec::new();
        let (handle, _batch) = self.register_shape(&nothing);
        (handle, out)
    }

    /// The draws of the shape that `shape` names, if it names one.
    pub fn shape_draws(&self, shape: ShapeHandle) -> (found: Option<&Vec<Draw>>)
        requires
            self.wf(),
        ensures
            found.is_some() <==> self.shapes@.dom().contains(shape.0),
            found matches Some(draws) ==> *draws == self.shapes@[shape.0].value.draws,
    {
        match self.shapes.get(shape.0) {
            Some(mesh) => Some(&mesh.draws),
            None => None,
        }
    }

    /// Counts one more reference to the shape that `shape` names, and says whether it
    /// did: not if the handle names no shape.
    pub fn retain_shape(&mut self, shape: ShapeHandle) -> (done: bool)
        requires
            old(self).wf(),
        ensures
            done == can_retain(old(self).shapes@, shape.0),
            final(self).shapes@ == retained(old(self).shapes@, shape.0),
            final(self).bitmaps == old(self).bitmaps,
            final(self).next_id == old(self).next_id,
            final(self).same_but_registries(old(self)),
            final(self).wf(),
    {
        self.shapes.retain(shape.0)
    }

    /// Gives up one reference to the shape that `shape` names. With the last reference
    /// the handle names nothing any more, the pins the shape has on its bitmaps are
    /// given up, and the calls that delete its GPU objects are handed back. In every
    /// other case no call is.
    pub fn release_shape(&mut self, shape: ShapeHandle) -> (out: Vec<GlCommand>)
        requires
            old(self).wf(),
        ensures
            final(self).shapes@ == released(old(self).shapes@, shape.0),
            final(self).bitmaps@ == release_shape_bitmaps(
                old(self).shapes@,
                old(self).bitmaps@,
                shape,
            ),
            out@ == release_shape_commands(old(self).shapes@, old(self).bitmaps@, shape),
            final(self).next_id == old(self).next_id,
            final(self).same_but_registries(old(self)),
            final(self).wf(),
    {
        let mut out = Vec::new();
        let ghost meshes = self.shapes.values();
        let mesh = match self.shapes.release(shape.0) {
            Some(mesh) => mesh,
            None => {
                return out;
            },
        };
        proof {
            assert forall|h: Handle|
                pins_of(self.bitmaps@, h) == #[trigger] meshes_hold(self.shapes.values(), h)
                    + draws_hold(mesh.draws@, h) by {
                assert(pins_of(self.bitmaps@, h) == meshes_hold(meshes, h) + draws_hold(
                    Seq::<Draw>::empty(),
                    h,
                ));
                lemma_meshes_hold_update(meshes, shape.0.index as int, None, h);
                assert(meshes[shape.0.index as int] == Some(mesh));
            }
        }
        let mut i: usize = 0;
        while i < mesh.draws.len()
            invariant
                i <= mesh.draws.len(),
                out@ == vertex_array_deletes(mesh.draws@.take(i as int)),
            decreases mesh.draws.len() - i,
        {
            out.push(GlCommand::DeleteVertexArray(mesh.draws[i].vao));
            assert(out@ =~= vertex_array_deletes(mesh.draws@.take(i + 1)));
            i = i + 1;
        }
        assert(mesh.draws@.take(i as int) =~= mesh.draws@);
        let ghost arrays = out@;
        assert(mesh.draws@.skip(0) =~= mesh.draws@);
        let mut k: usize = 0;
        while k < mesh.draws.len()
            invariant
                k <= mesh.draws.len(),
                self.wf_with(mesh.draws@.skip(k as int)),
                self.shapes@ == released(old(self).shapes@, shape.0),
                self.next_id == old(self).next_id,
                self.same_but_registries(old(self)),
                self.bitmaps@ == draws_released(old(self).bitmaps@, mesh.draws@.take(k as int)),
                out@ == arrays + draws_delete_commands(
                    old(self).bitmaps@,
                    mesh.draws@.take(k as int),
                ),
            decreases mesh.draws.len() - k,
        {
            let draw = &mesh.draws[k];
            assert(mesh.draws@.take(k + 1).drop_last() =~= mesh.draws@.take(k as int));
            assert(mesh.draws@.take(k + 1).last() == mesh.draws@[k as int]);
            let ghost before = out@;
            let ghost pinned_before = self.bitmaps@;
            let ghost rest = mesh.draws@.skip(k as int);
            assert(rest[0] == mesh.draws@[k as int]);
            assert(rest.skip(1) =~= mesh.draws@.skip(k + 1));
            if let DrawType::Bitmap(bitmap) = &draw.draw_type {
                if let Some(handle) = bitmap.handle {
                    proof {
                        lemma_draws_hold_first(rest, handle.0);
                        assert(pins_of(pinned_before, handle.0) == meshes_hold(
                            self.shapes.values(),
                            handle.0,
                        ) + draws_hold(rest, handle.0));
                    }
                    if let Some(data) = self.bitmaps.unpin(handle.0) {
                        out.push(GlCommand::DeleteTexture(data.texture));
                    }
                }
            }
            out.push(GlCommand::DeleteBuffer(draw.vertex_buffer));
            out.push(GlCommand::DeleteBuffer(draw.index_buffer));
            proof {
                assert forall|h: Handle|
                    pins_of(self.bitmaps@, h) == #[trigger] meshes_hold(self.shapes.values(), h)
                        + draws_hold(mesh.draws@.skip(k + 1), h) by {
                    lemma_draws_hold_first(rest, h);
                    assert(pins_of(pinned_before, h) == meshes_hold(self.shapes.values(), h)
                        + draws_hold(rest, h));
                }
                assert(out@ =~= before + draw_delete_commands(
                    draws_released(old(self).bitmaps@, mesh.draws@.take(k as int)),
                    *draw,
                ));
                assert(out@ =~= arrays + draws_delete_commands(
                    old(self).bitmaps@,
                    mesh.draws@.take(k + 1),
                ));
            }
            k = k + 1;
        }
        assert(mesh.draws@.skip(k as int) =~= Seq::<Draw>::empty());
        assert(mesh.draws@.take(k as int) =~= mesh.draws@);
        out
    }
}

/// A bitmap that a draw of a registered shape holds is registered, however many
/// references to it were given up: a shape can always be drawn with the bitmaps it was
/// registered with.
pub proof fn lemma_shape_bitmaps_are_registered(
    backend: &GlowRenderBackend,
    shape: ShapeHandle,
    k: int,
    bitmap: BitmapHandle,
)
    requires
        backend.wf(),
        backend.shapes@.dom().contains(shape.0),
        0 <= k < backend.shapes@[shape.0].value.draws@.len(),
        held_bitmap(backend.shapes@[shape.0].value.draws@[k]) == Some(bitmap),
    ensures
        backend.bitmaps@.dom().contains(bitmap.0),
        crate::render::has_fill(
            backend.shapes@[shape.0].value.draws@[k].draw_type,
            backend.bitmaps@,
        ),
{
    let meshes = backend.shapes.values();
    let i = shape.0.index as int;
    assert(meshes[i] == Some(backend.shapes@[shape.0].value));
    lemma_held_bitmap_is_registered(backend.bitmaps@, meshes, i, k, bitmap.0);
}

/// Once the last reference to a shape is given up its handle names nothing, so that
/// giving it up again deletes nothing: the GPU objects of a shape are deleted once.
pub proof fn lemma_shape_deleted_once(
    shapes: Map<Handle, Entry<Mesh>>,
    bitmaps: Map<Handle, Entry<RegistryData>>,
    shape: ShapeHandle,
)
    requires
        is_last(shapes, shape.0),
    ensures
        !released(shapes, shape.0).dom().contains(shape.0),
        release_shape_commands(
            released(shapes, shape.0),
            release_shape_bitmaps(shapes, bitmaps, shape),
            shape,
        ) == Seq::<GlCommand>::empty(),
        released(released(shapes, shape.0), shape.0) == released(shapes, shape.0),
{
}

/// While more than one reference to a shape is counted, giving one up deletes nothing
/// and leaves the shape and the bitmaps as they are.
pub proof fn lemma_shape_kept_while_shared(
    shapes: Map<Handle, Entry<Mesh>>,
    bitmaps: Map<Handle, Entry<RegistryData>>,
    shape: ShapeHandle,
)
    requires
        shapes.dom().contains(shape.0),
        shapes[shape.0].refs > 1,
    ensures
        released(shapes, shape.0).dom().contains(shape.0),
        released(shapes, shape.0)[shape.0].value == shapes[shape.0].value,
        release_shape_commands(shapes, bitmaps, shape) == Seq::<GlCommand>::empty(),
        release_shape_bitmaps(shapes, bitmaps, shape) == bitmaps,
{
}

} // verus!
