//! Frame planning: what one present call draws, given the GUI layer's output
//! for the frame.
//!
//! Planning is pure. It decides the texture upload, the clipboard write, the
//! optional clear, and the ordered draw list: one draw call per non-degenerate
//! mesh primitive, in tessellation output order (later meshes paint over
//! earlier ones), each with its own scissor rectangle and texture binding.
//! A paint-callback primitive is unsupported and fatal for the frame; a
//! degenerate mesh is silently dropped; an empty frame or an unbound render
//! target draws nothing and is not an error.

use crate::error::BackendError;
use crate::mesh::{
    buffer_bytes, buffer_bytes_spec, build_mesh, degenerate, mesh_built, scissor_matches,
    scissor_of, ClipRect, GpuMesh, RawMesh, ScissorPx, ScreenSize, INDEX_STRIDE, VERTEX_STRIDE,
};
use vstd::prelude::*;

verus! {

/// One tessellated draw primitive: triangle geometry under a clip rectangle,
/// or a paint callback, which this backend rejects.
#[derive(Clone, PartialEq, Eq, Debug)]
pub enum Primitive {
    Mesh { mesh: RawMesh, clip: ClipRect },
    Callback,
}

/// What one GUI frame produced: whether texture deltas need uploading, text
/// the GUI asks to place on the clipboard, whether the frame's shape list is
/// empty, and the tessellated primitives.
#[derive(Clone, PartialEq, Eq, Debug)]
pub struct GuiOutput {
    pub has_texture_deltas: bool,
    pub copied_text: String,
    pub shapes_empty: bool,
    pub primitives: Vec<Primitive>,
}

/// One planned draw call: the GPU mesh, its scissor rectangle in whole
/// pixels, and the exact byte widths of the vertex and index buffers to
/// allocate for it.
#[derive(Clone, PartialEq, Eq, Debug)]
pub struct DrawCall {
    pub mesh: GpuMesh,
    pub scissor: ScissorPx,
    pub vertex_bytes: u64,
    pub index_bytes: u64,
}

/// Everything one present call does between state capture and state restore,
/// in order: upload texture deltas, write the clipboard, optionally clear the
/// target, then issue the draw calls.
#[derive(Clone, PartialEq, Eq, Debug)]
pub struct FramePlan {
    pub upload_textures: bool,
    pub clipboard_text: Option<String>,
    pub cleared: bool,
    pub target: Option<u64>,
    pub draws: Vec<DrawCall>,
}

/// A primitive that yields a draw call: a mesh with a whole, non-empty
/// triangle list.
pub open spec fn drawable(p: Primitive) -> bool {
    match p {
        Primitive::Mesh { mesh, clip } => !degenerate(&mesh),
        Primitive::Callback => false,
    }
}

/// No paint-callback primitive anywhere in the list.
pub open spec fn callback_free(prims: Seq<Primitive>) -> bool {
    forall|i: int| 0 <= i < prims.len() ==> !((#[trigger] prims[i]) is Callback)
}

/// The positions of the drawable primitives, in order.
pub open spec fn draw_indices(prims: Seq<Primitive>) -> Seq<int>
    decreases prims.len(),
{
    if prims.len() == 0 {
        Seq::empty()
    } else {
        let front = draw_indices(prims.drop_last());
        if drawable(prims.last()) {
            front.push(prims.len() - 1)
        } else {
            front
        }
    }
}

/// The drawable positions index into the list, point at drawable primitives,
/// and come strictly in list order.
pub proof fn lemma_draw_indices_valid(prims: Seq<Primitive>)
    ensures
        forall|k: int|
            0 <= k < draw_indices(prims).len() ==> 0 <= #[trigger] draw_indices(prims)[k]
                < prims.len() && drawable(prims[draw_indices(prims)[k]]),
        forall|k1: int, k2: int|
            0 <= k1 < k2 < draw_indices(prims).len() ==> draw_indices(prims)[k1] < draw_indices(
                prims,
            )[k2],
    decreases prims.len(),
{
    if prims.len() > 0 {
        let front = draw_indices(prims.drop_last());
        let idxs = draw_indices(prims);
        lemma_draw_indices_valid(prims.drop_last());
        assert(forall|i: int|
            0 <= i < prims.drop_last().len() ==> #[trigger] prims.drop_last()[i] == prims[i]);
        assert forall|k: int| 0 <= k < idxs.len() implies 0 <= #[trigger] idxs[k] < prims.len()
            && drawable(prims[idxs[k]]) by {
            if k < front.len() {
                assert(idxs[k] == front[k]);
                assert(drawable(prims.drop_last()[front[k]]));
            } else {
                assert(drawable(prims.last()));
                assert(idxs[k] == prims.len() - 1);
            }
        }
        assert forall|k1: int, k2: int| 0 <= k1 < k2 < idxs.len() implies idxs[k1] < idxs[k2] by {
            if k2 < front.len() {
                assert(idxs[k1] == front[k1] && idxs[k2] == front[k2]);
            } else {
                assert(idxs[k2] == prims.len() - 1);
                assert(idxs[k1] == front[k1]);
                assert(front[k1] < prims.drop_last().len());
            }
        }
    }
}

/// The draw call `dc` is what the mesh primitive `p` must plan to: geometry
/// built from the mesh, the clip rounded to a scissor rectangle, and buffers
/// sized exactly to the counts.
pub open spec fn draw_built(screen: ScreenSize, p: Primitive, dc: DrawCall) -> bool {
    match p {
        Primitive::Mesh { mesh, clip } => {
            &&& mesh_built(screen, &mesh, clip, &dc.mesh)
            &&& scissor_matches(clip, dc.scissor)
            &&& dc.vertex_bytes == buffer_bytes_spec(
                dc.mesh.vertices@.len() as int,
                VERTEX_STRIDE as int,
            )
            &&& dc.index_bytes == buffer_bytes_spec(
                dc.mesh.indices@.len() as int,
                INDEX_STRIDE as int,
            )
        },
        Primitive::Callback => false,
    }
}

/// The draw list plans exactly the drawable primitives, in their order.
pub open spec fn draws_match(screen: ScreenSize, prims: Seq<Primitive>, draws: Seq<DrawCall>) -> bool {
    &&& draws.len() == draw_indices(prims).len()
    &&& forall|k: int|
        0 <= k < draws.len() ==> draw_built(
            screen,
            prims[draw_indices(prims)[k]],
            #[trigger] draws[k],
        )
}

/// Everything planning promises of its result, for a frame with GUI output
/// `gui`, clear toggle `clear`, and render target `target`.
pub open spec fn plan_outcome(
    screen: ScreenSize,
    gui: GuiOutput,
    clear: bool,
    target: Option<u64>,
    r: Result<FramePlan, BackendError>,
) -> bool {
    &&& ((r is Err) <==> (!gui.shapes_empty && !callback_free(gui.primitives@)))
    &&& (r matches Err(e) ==> e == BackendError::UnsupportedPaintCallback)
    &&& (r matches Ok(plan) ==> {
        &&& plan.upload_textures == gui.has_texture_deltas
        &&& (plan.clipboard_text is Some <==> gui.copied_text@.len() > 0)
        &&& (plan.clipboard_text matches Some(t) ==> t@ == gui.copied_text@)
        &&& plan.cleared == (clear && target is Some)
        &&& plan.target == target
        &&& (gui.shapes_empty ==> plan.draws@.len() == 0)
        &&& (target is None ==> plan.draws@.len() == 0)
        &&& (!gui.shapes_empty && target is Some ==> draws_match(
            screen,
            gui.primitives@,
            plan.draws@,
        ))
    })
}

/// Plans one frame. Fails exactly when a drawing frame holds a paint
/// callback; otherwise the plan carries the upload flag, the clipboard text
/// when there is any, the clear decision, and one draw call per drawable
/// primitive in order.
pub fn plan_frame(
    screen: ScreenSize,
    gui: GuiOutput,
    clear: bool,
    target: Option<u64>,
) -> (r: Result<FramePlan, BackendError>)
    requires
        screen.wf(),
    ensures
        plan_outcome(screen, gui, clear, target, r),
{
    let upload_textures = gui.has_texture_deltas;
    let shapes_empty = gui.shapes_empty;
    let has_target = target.is_some();
    let mut draws: Vec<DrawCall> = Vec::new();
    if !shapes_empty {
        let n: usize = gui.primitives.len();
        let mut i: usize = 0;
        while i < n
            invariant
                screen.wf(),
                !gui.shapes_empty,
                n == gui.primitives@.len(),
                i <= n,
                callback_free(gui.primitives@.take(i as int)),
                has_target == (target is Some),
                has_target ==> draws_match(screen, gui.primitives@.take(i as int), draws@),
                !has_target ==> draws@.len() == 0,
            decreases n - i,
        {
            proof {
                lemma_draw_indices_valid(gui.primitives@.take(i as int));
                assert(gui.primitives@.take(i as int + 1).drop_last() =~= gui.primitives@.take(
                    i as int,
                ));
                assert(gui.primitives@.take(i as int + 1).last() == gui.primitives@[i as int]);
                assert(forall|j: int|
                    0 <= j <= i ==> #[trigger] gui.primitives@.take(i as int + 1)[j]
                        == gui.primitives@[j]);
                assert(forall|j: int|
                    0 <= j < i ==> #[trigger] gui.primitives@.take(i as int)[j]
                        == gui.primitives@[j]);
            }
            match &gui.primitives[i] {
                Primitive::Mesh { mesh, clip } => {
                    if has_target {
                        match build_mesh(screen, mesh, *clip) {
                            Some(g) => {
                                let scissor = scissor_of(*clip);
                                let vertex_bytes = buffer_bytes(g.vertices.len(), VERTEX_STRIDE);
                                let index_bytes = buffer_bytes(g.indices.len(), INDEX_STRIDE);
                                proof {
                                    assert(drawable(gui.primitives@[i as int]));
                                    assert(draw_indices(gui.primitives@.take(i as int + 1))
                                        =~= draw_indices(gui.primitives@.take(i as int)).push(
                                        i as int,
                                    ));
                                }
                                draws.push(DrawCall { mesh: g, scissor, vertex_bytes, index_bytes });
                            },
                            None => {
                                proof {
                                    assert(!drawable(gui.primitives@[i as int]));
                                    assert(draw_indices(gui.primitives@.take(i as int + 1))
                                        =~= draw_indices(gui.primitives@.take(i as int)));
                                }
                            },
                        }
                    }
                },
                Primitive::Callback => {
                    proof {
                        assert(gui.primitives@[i as int] is Callback);
                        assert(!callback_free(gui.primitives@));
                    }
                    return Err(BackendError::UnsupportedPaintCallback);
                },
            }
            i += 1;
        }
        proof {
            assert(gui.primitives@.take(n as int) =~= gui.primitives@);
        }
    }
    let has_text = !gui.copied_text.as_str().is_empty();
    let clipboard_text = if has_text {
        Some(gui.copied_text)
    } else {
        None
    };
    Ok(FramePlan { upload_textures, clipboard_text, cleared: clear && has_target, target, draws })
}

} // verus!
