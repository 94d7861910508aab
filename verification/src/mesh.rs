//! Mesh building: turning a tessellated draw primitive, given in screen pixel
//! space, into GPU-ready geometry in device coordinates.
//!
//! A raw mesh whose index count is zero or not a multiple of three is
//! degenerate: it is dropped, never drawn, and never an error. Every other
//! mesh keeps its vertex and index counts; each vertex position is remapped
//! from pixel space to device space, while texture coordinates and color are
//! carried through unchanged, as is the clip rectangle.

use crate::coords::{
    div_trunc, div_trunc_i64, lemma_remap_x_in_range, lemma_remap_y_in_range, remap_x,
    remap_x_spec, remap_y, remap_y_spec, UNIT,
};
use vstd::prelude::*;

verus! {

/// Screen size in fixed-point pixels, at least one step on each axis.
#[derive(Clone, Copy, PartialEq, Eq, Debug)]
pub struct ScreenSize {
    pub w: i32,
    pub h: i32,
}

impl ScreenSize {
    pub open spec fn wf(&self) -> bool {
        self.w >= 1 && self.h >= 1
    }
}

/// A color as four fixed-point channels (red, green, blue, alpha).
#[derive(Clone, Copy, PartialEq, Eq, Debug)]
pub struct Color {
    pub r: i32,
    pub g: i32,
    pub b: i32,
    pub a: i32,
}

/// One tessellated vertex in screen pixel space (fixed point), with its
/// texture coordinates and color.
#[derive(Clone, Copy, PartialEq, Eq, Debug)]
pub struct Vertex {
    pub x: i32,
    pub y: i32,
    pub u: i32,
    pub v: i32,
    pub color: Color,
}

/// A clip rectangle in screen pixel space (fixed point).
#[derive(Clone, Copy, PartialEq, Eq, Debug)]
pub struct ClipRect {
    pub left: i32,
    pub top: i32,
    pub right: i32,
    pub bottom: i32,
}

/// A tessellated draw primitive as the GUI layer hands it over: colored,
/// UV-mapped vertices and triangle indices, with the texture the triangles
/// sample from.
#[derive(Clone, PartialEq, Eq, Debug)]
pub struct RawMesh {
    pub vertices: Vec<Vertex>,
    pub indices: Vec<u32>,
    pub texture_id: u64,
}

/// One vertex remapped to device space. Positions need the wider type: for a
/// narrow screen a far-off-screen pixel coordinate maps far outside the
/// visible `[-UNIT, UNIT]` square.
#[derive(Clone, Copy, PartialEq, Eq, Debug)]
pub struct GpuVertex {
    pub x: i64,
    pub y: i64,
    pub u: i32,
    pub v: i32,
    pub color: Color,
}

/// GPU-consumable geometry: device-space vertices, triangle indices, the
/// texture to bind, and the clip rectangle carried through for scissoring.
#[derive(Clone, PartialEq, Eq, Debug)]
pub struct GpuMesh {
    pub vertices: Vec<GpuVertex>,
    pub indices: Vec<u32>,
    pub texture_id: u64,
    pub clip: ClipRect,
}

/// A raw mesh is degenerate when its index count is zero or not a multiple
/// of three: it describes no whole triangle list.
pub open spec fn degenerate(mesh: &RawMesh) -> bool {
    mesh.indices@.len() == 0 || mesh.indices@.len() % 3 != 0
}

/// The device-space vertex `g` is the screen-space vertex `v` remapped, with
/// texture coordinates and color unchanged.
pub open spec fn vertex_remapped(screen: ScreenSize, v: Vertex, g: GpuVertex) -> bool {
    &&& g.x == remap_x_spec(v.x as int, screen.w as int)
    &&& g.y == remap_y_spec(v.y as int, screen.h as int)
    &&& g.u == v.u
    &&& g.v == v.v
    &&& g.color == v.color
}

/// The GPU mesh `g` is what building the raw mesh `mesh` under clip `clip`
/// must produce: indices, texture and clip unchanged, every vertex remapped.
pub open spec fn mesh_built(screen: ScreenSize, mesh: &RawMesh, clip: ClipRect, g: &GpuMesh) -> bool {
    &&& g.indices@ == mesh.indices@
    &&& g.texture_id == mesh.texture_id
    &&& g.clip == clip
    &&& g.vertices@.len() == mesh.vertices@.len()
    &&& forall|i: int|
        0 <= i < mesh.vertices@.len() ==> vertex_remapped(
            screen,
            mesh.vertices@[i],
            #[trigger] g.vertices@[i],
        )
}

/// Builds GPU geometry from a raw mesh, or drops it when degenerate.
pub fn build_mesh(screen: ScreenSize, mesh: &RawMesh, clip: ClipRect) -> (r: Option<GpuMesh>)
    requires
        screen.wf(),
    ensures
        r is None <==> degenerate(mesh),
        r matches Some(g) ==> mesh_built(screen, mesh, clip, &g),
{
    if mesh.indices.len() == 0 || mesh.indices.len() % 3 != 0 {
        None
    } else {
        let mut vertices: Vec<GpuVertex> = Vec::new();
        let mut i: usize = 0;
        while i < mesh.vertices.len()
            invariant
                screen.wf(),
                i <= mesh.vertices@.len(),
                vertices@.len() == i,
                forall|j: int|
                    0 <= j < i ==> vertex_remapped(
                        screen,
                        mesh.vertices@[j],
                        #[trigger] vertices@[j],
                    ),
            decreases mesh.vertices@.len() - i,
        {
            let v = mesh.vertices[i];
            vertices.push(
                GpuVertex {
                    x: remap_x(v.x, screen.w),
                    y: remap_y(v.y, screen.h),
                    u: v.u,
                    v: v.v,
                    color: v.color,
                },
            );
            i += 1;
        }
        let mut indices: Vec<u32> = Vec::new();
        let mut i: usize = 0;
        while i < mesh.indices.len()
            invariant
                i <= mesh.indices@.len(),
                indices@ =~= mesh.indices@.take(i as int),
            decreases mesh.indices@.len() - i,
        {
            indices.push(mesh.indices[i]);
            i += 1;
        }
        proof {
            assert(indices@ =~= mesh.indices@);
        }
        Some(GpuMesh { vertices, indices, texture_id: mesh.texture_id, clip })
    }
}

impl GpuMesh {
    /// Builds GPU geometry from a raw mesh, or drops it when degenerate.
    pub fn from_mesh(screen: ScreenSize, mesh: RawMesh, clip: ClipRect) -> (r: Option<GpuMesh>)
        requires
            screen.wf(),
        ensures
            r is None <==> degenerate(&mesh),
            r matches Some(g) ==> mesh_built(screen, &mesh, clip, &g),
    {
        build_mesh(screen, &mesh, clip)
    }
}

/// Building a non-degenerate mesh keeps its vertex and index counts, and a
/// vertex whose pixel position lies inside the screen lands inside the
/// visible device square `[-1, 1]` on both axes.
pub proof fn lemma_built_mesh_counts_and_range(
    screen: ScreenSize,
    mesh: &RawMesh,
    clip: ClipRect,
    g: &GpuMesh,
)
    requires
        screen.wf(),
        mesh_built(screen, mesh, clip, g),
    ensures
        g.vertices@.len() == mesh.vertices@.len(),
        g.indices@.len() == mesh.indices@.len(),
        forall|i: int|
            0 <= i < mesh.vertices@.len() && 0 <= mesh.vertices@[i].x <= screen.w && 0
                <= mesh.vertices@[i].y <= screen.h ==> -UNIT <= #[trigger] g.vertices@[i].x <= UNIT
                && -UNIT <= g.vertices@[i].y <= UNIT,
{
    assert forall|i: int|
        0 <= i < mesh.vertices@.len() && 0 <= mesh.vertices@[i].x <= screen.w && 0
            <= mesh.vertices@[i].y <= screen.h implies -UNIT <= #[trigger] g.vertices@[i].x <= UNIT
        && -UNIT <= g.vertices@[i].y <= UNIT by {
        lemma_remap_x_in_range(mesh.vertices@[i].x as int, screen.w as int);
        lemma_remap_y_in_range(mesh.vertices@[i].y as int, screen.h as int);
    }
}

/// A scissor rectangle in whole device pixels, as the draw pass binds it.
#[derive(Clone, Copy, PartialEq, Eq, Debug)]
pub struct ScissorPx {
    pub left: i64,
    pub top: i64,
    pub right: i64,
    pub bottom: i64,
}

/// The scissor rectangle `s` is the clip rectangle `c` rounded toward zero
/// to whole pixels.
pub open spec fn scissor_matches(c: ClipRect, s: ScissorPx) -> bool {
    &&& s.left == div_trunc(c.left as int, UNIT as int)
    &&& s.top == div_trunc(c.top as int, UNIT as int)
    &&& s.right == div_trunc(c.right as int, UNIT as int)
    &&& s.bottom == div_trunc(c.bottom as int, UNIT as int)
}

/// Rounds a clip rectangle to the whole-pixel scissor rectangle bound for
/// its mesh's draw call.
pub fn scissor_of(c: ClipRect) -> (s: ScissorPx)
    ensures
        scissor_matches(c, s),
{
    ScissorPx {
        left: div_trunc_i64(c.left as i64, UNIT),
        top: div_trunc_i64(c.top as i64, UNIT),
        right: div_trunc_i64(c.right as i64, UNIT),
        bottom: div_trunc_i64(c.bottom as i64, UNIT),
    }
}

/// Bytes of one device-space vertex in the GPU layout: two coordinate pairs
/// and a four-channel color.
pub const VERTEX_STRIDE: u64 = 32;

/// Bytes of one index in the GPU layout.
pub const INDEX_STRIDE: u64 = 4;

/// The byte width of a buffer holding `count` items of `stride` bytes,
/// saturating at the largest representable width.
pub open spec fn buffer_bytes_spec(count: int, stride: int) -> int {
    if count * stride <= u64::MAX as int {
        count * stride
    } else {
        u64::MAX as int
    }
}

/// Computes a buffer's byte width from its item count and stride.
pub fn buffer_bytes(count: usize, stride: u64) -> (r: u64)
    requires
        1 <= stride <= 32,
    ensures
        r == buffer_bytes_spec(count as int, stride as int),
{
    let c: u64 = count as u64;
    let limit: u64 = u64::MAX / stride;
    if c <= limit {
        proof {
            vstd::arithmetic::mul::lemma_mul_inequality(c as int, limit as int, stride as int);
            vstd::arithmetic::div_mod::lemma_remainder_lower(u64::MAX as int, stride as int);
        }
        c * stride
    } else {
        proof {
            vstd::arithmetic::mul::lemma_mul_inequality(
                limit as int + 1,
                c as int,
                stride as int,
            );
            vstd::arithmetic::mul::lemma_mul_is_distributive_add_other_way(
                stride as int,
                limit as int,
                1,
            );
            vstd::arithmetic::mul::lemma_mul_is_commutative(limit as int, stride as int);
            vstd::arithmetic::div_mod::lemma_fundamental_div_mod(u64::MAX as int, stride as int);
            vstd::arithmetic::div_mod::lemma_mod_bound(u64::MAX as int, stride as int);
        }
        u64::MAX
    }
}

} // verus!
