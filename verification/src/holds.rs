//! How many draws of registered shapes hold a bitmap. The bitmap registry counts a pin
//! for each of them, so that a bitmap stays registered for as long as a shape draws
//! with it, whatever becomes of the references to the bitmap.

use vstd::prelude::*;
use crate::arena::{Entry, Handle};
use crate::mesh::{BitmapHandle, Draw, DrawType, Mesh};
use crate::render::RegistryData;

verus! {

/// The bitmap a draw holds, if it holds one.
pub open spec fn held_bitmap(draw: Draw) -> Option<BitmapHandle> {
    match draw.draw_type {
        DrawType::Bitmap(bitmap) => bitmap.handle,
        _ => None,
    }
}

/// One if `draw` holds the bitmap that `h` names, else zero.
pub open spec fn draw_holds(draw: Draw, h: Handle) -> nat {
    if held_bitmap(draw) == Some(BitmapHandle(h)) {
        1
    } else {
        0
    }
}

/// How many of `draws` hold the bitmap that `h` names.
pub open spec fn draws_hold(draws: Seq<Draw>, h: Handle) -> nat
    decreases draws.len(),
{
    if draws.len() == 0 {
        0
    } else {
        draws_hold(draws.drop_last(), h) + draw_holds(draws.last(), h)
    }
}

/// How many draws of the shape in a slot hold the bitmap that `h` names; none if the
/// slot is empty.
pub open spec fn mesh_holds(mesh: Option<Mesh>, h: Handle) -> nat {
    match mesh {
        Some(m) => draws_hold(m.draws@, h),
        None => 0,
    }
}

/// How many draws of the shapes in `meshes` hold the bitmap that `h` names.
pub open spec fn meshes_hold(meshes: Seq<Option<Mesh>>, h: Handle) -> nat
    decreases meshes.len(),
{
    if meshes.len() == 0 {
        0
    } else {
        meshes_hold(meshes.drop_last(), h) + mesh_holds(meshes.last(), h)
    }
}

/// How many pins are counted for the bitmap that `h` names; none if it names nothing.
pub open spec fn pins_of(bitmaps: Map<Handle, Entry<RegistryData>>, h: Handle) -> nat {
    if bitmaps.dom().contains(h) {
        bitmaps[h].pins
    } else {
        0
    }
}

/// Whether the pins of every bitmap are the draws that hold it: those of the shapes in
/// `meshes` and those of `pending`, which are draws on their way into or out of the
/// registry.
pub open spec fn holds_counted(
    bitmaps: Map<Handle, Entry<RegistryData>>,
    meshes: Seq<Option<Mesh>>,
    pending: Seq<Draw>,
) -> bool {
    forall|h: Handle|
        pins_of(bitmaps, h) == #[trigger] meshes_hold(meshes, h) + draws_hold(pending, h)
}

/// One more draw is held once more by the bitmap it holds.
pub proof fn lemma_draws_hold_push(draws: Seq<Draw>, draw: Draw, h: Handle)
    ensures
        draws_hold(draws.push(draw), h) == draws_hold(draws, h) + draw_holds(draw, h),
{
    assert(draws.push(draw).drop_last() =~= draws);
}

/// The first draws of a list hold a bitmap no more often than the whole list.
pub proof fn lemma_draws_hold_prefix(draws: Seq<Draw>, n: int, h: Handle)
    requires
        0 <= n <= draws.len(),
    ensures
        draws_hold(draws.take(n), h) <= draws_hold(draws, h),
    decreases draws.len() - n,
{
    if n < draws.len() {
        lemma_draws_hold_prefix(draws, n + 1, h);
        assert(draws.take(n + 1).drop_last() =~= draws.take(n));
    } else {
        assert(draws.take(n) =~= draws);
    }
}

/// A list holds a bitmap as often as its first draw and the rest of it do.
pub proof fn lemma_draws_hold_first(draws: Seq<Draw>, h: Handle)
    requires
        draws.len() > 0,
    ensures
        draws_hold(draws, h) == draw_holds(draws[0], h) + draws_hold(draws.skip(1), h),
    decreases draws.len(),
{
    if draws.len() == 1 {
        assert(draws.drop_last() =~= Seq::<Draw>::empty());
        assert(draws.skip(1) =~= Seq::<Draw>::empty());
    } else {
        lemma_draws_hold_first(draws.drop_last(), h);
        assert(draws.skip(1).drop_last() =~= draws.drop_last().skip(1));
        assert(draws.skip(1).last() == draws.last());
    }
}

/// A list with a draw that holds a bitmap holds it at least once.
pub proof fn lemma_draws_hold_member(draws: Seq<Draw>, k: int, h: Handle)
    requires
        0 <= k < draws.len(),
        held_bitmap(draws[k]) == Some(BitmapHandle(h)),
    ensures
        draws_hold(draws, h) >= 1,
{
    lemma_draws_hold_prefix(draws, k + 1, h);
    assert(draws.take(k + 1).drop_last() =~= draws.take(k));
    assert(draws.take(k + 1).last() == draws[k]);
}

/// One more slot adds the draws of its shape.
pub proof fn lemma_meshes_hold_push(meshes: Seq<Option<Mesh>>, mesh: Option<Mesh>, h: Handle)
    ensures
        meshes_hold(meshes.push(mesh), h) == meshes_hold(meshes, h) + mesh_holds(mesh, h),
{
    assert(meshes.push(mesh).drop_last() =~= meshes);
}

/// A slot that changes takes the draws of its old shape away and adds those of its new
/// one.
pub proof fn lemma_meshes_hold_update(
    meshes: Seq<Option<Mesh>>,
    i: int,
    mesh: Option<Mesh>,
    h: Handle,
)
    requires
        0 <= i < meshes.len(),
    ensures
        meshes_hold(meshes.update(i, mesh), h) + mesh_holds(meshes[i], h) == meshes_hold(meshes, h)
            + mesh_holds(mesh, h),
    decreases meshes.len(),
{
    if i == meshes.len() - 1 {
        assert(meshes.update(i, mesh).drop_last() =~= meshes.drop_last());
    } else {
        lemma_meshes_hold_update(meshes.drop_last(), i, mesh, h);
        assert(meshes.update(i, mesh).drop_last() =~= meshes.drop_last().update(i, mesh));
    }
}

/// The draws of one slot are among those of all slots.
pub proof fn lemma_meshes_hold_member(meshes: Seq<Option<Mesh>>, i: int, h: Handle)
    requires
        0 <= i < meshes.len(),
    ensures
        mesh_holds(meshes[i], h) <= meshes_hold(meshes, h),
    decreases meshes.len(),
{
    if i < meshes.len() - 1 {
        lemma_meshes_hold_member(meshes.drop_last(), i, h);
    }
}

/// A bitmap that a draw of a registered shape holds is registered.
pub proof fn lemma_held_bitmap_is_registered(
    bitmaps: Map<Handle, Entry<RegistryData>>,
    meshes: Seq<Option<Mesh>>,
    i: int,
    k: int,
    h: Handle,
)
    requires
        holds_counted(bitmaps, meshes, Seq::<Draw>::empty()),
        0 <= i < meshes.len(),
        meshes[i] matches Some(mesh) && 0 <= k < mesh.draws@.len() && held_bitmap(mesh.draws@[k])
            == Some(BitmapHandle(h)),
    ensures
        bitmaps.dom().contains(h),
        bitmaps[h].pins >= 1,
{
    lemma_draws_hold_member(meshes[i]->0.draws@, k, h);
    lemma_meshes_hold_member(meshes, i, h);
    assert(pins_of(bitmaps, h) == meshes_hold(meshes, h) + draws_hold(Seq::<Draw>::empty(), h));
}

} // verus!
