use egui_d3d11::coords::{div_trunc_i64, remap_x, remap_y, UNIT};
use egui_d3d11::mesh::{
    buffer_bytes, build_mesh, scissor_of, ClipRect, Color, GpuMesh, RawMesh, ScreenSize, Vertex,
    INDEX_STRIDE, VERTEX_STRIDE,
};

fn px(n: i32) -> i32 {
    n * (UNIT as i32)
}

fn screen_800_600() -> ScreenSize {
    ScreenSize { w: px(800), h: px(600) }
}

fn white() -> Color {
    Color { r: UNIT as i32, g: UNIT as i32, b: UNIT as i32, a: UNIT as i32 }
}

fn vertex(x: i32, y: i32) -> Vertex {
    Vertex { x, y, u: 17, v: 23, color: white() }
}

#[test]
fn remap_sends_top_left_to_minus_one_plus_one() {
    let s = screen_800_600();
    assert_eq!(remap_x(0, s.w), -UNIT);
    assert_eq!(remap_y(0, s.h), UNIT);
}

#[test]
fn remap_sends_bottom_right_to_plus_one_minus_one() {
    let s = screen_800_600();
    assert_eq!(remap_x(s.w, s.w), UNIT);
    assert_eq!(remap_y(s.h, s.h), -UNIT);
}

#[test]
fn remap_sends_midpoint_to_origin() {
    let s = screen_800_600();
    assert_eq!(remap_x(s.w / 2, s.w), 0);
    assert_eq!(remap_y(s.h / 2, s.h), 0);
}

#[test]
fn remap_quarter_point() {
    // A quarter of the way across an 800-pixel screen: (2*200 - 800)/800 = -1/2.
    let s = screen_800_600();
    assert_eq!(remap_x(px(200), s.w), -UNIT / 2);
}

#[test]
fn remap_off_screen_position_lands_outside_the_unit_square() {
    // 100 pixels left of an 800-pixel screen: (2*(-100) - 800)/800 = -1.25.
    let s = screen_800_600();
    assert_eq!(remap_x(px(-100), s.w), -UNIT - UNIT / 4);
}

#[test]
fn div_trunc_rounds_toward_zero() {
    assert_eq!(div_trunc_i64(7, 2), 3);
    assert_eq!(div_trunc_i64(-7, 2), -3);
    assert_eq!(div_trunc_i64(0, 5), 0);
}

#[test]
fn build_mesh_keeps_counts_and_payload() {
    let s = screen_800_600();
    let mesh = RawMesh {
        vertices: vec![vertex(0, 0), vertex(px(800), px(600)), vertex(px(400), px(300))],
        indices: vec![0, 1, 2],
        texture_id: 9,
    };
    let clip = ClipRect { left: 0, top: 0, right: px(800), bottom: px(600) };
    let g = build_mesh(s, &mesh, clip).expect("a whole triangle must build");
    assert_eq!(g.vertices.len(), 3);
    assert_eq!(g.indices, vec![0, 1, 2]);
    assert_eq!(g.texture_id, 9);
    assert_eq!(g.clip, clip);
    // Top-left pixel lands at device (-1, 1), bottom-right at (1, -1),
    // the midpoint at the origin; UV and color ride through unchanged.
    assert_eq!((g.vertices[0].x, g.vertices[0].y), (-UNIT, UNIT));
    assert_eq!((g.vertices[1].x, g.vertices[1].y), (UNIT, -UNIT));
    assert_eq!((g.vertices[2].x, g.vertices[2].y), (0, 0));
    for v in &g.vertices {
        assert!(-UNIT <= v.x && v.x <= UNIT);
        assert!(-UNIT <= v.y && v.y <= UNIT);
        assert_eq!((v.u, v.v), (17, 23));
        assert_eq!(v.color, white());
    }
}

#[test]
fn build_mesh_drops_empty_index_list() {
    let s = screen_800_600();
    let mesh = RawMesh { vertices: vec![vertex(0, 0)], indices: vec![], texture_id: 0 };
    let clip = ClipRect { left: 0, top: 0, right: 0, bottom: 0 };
    assert!(build_mesh(s, &mesh, clip).is_none());
}

#[test]
fn build_mesh_drops_partial_triangles() {
    let s = screen_800_600();
    for n in [1usize, 2, 4, 5, 7] {
        let mesh = RawMesh {
            vertices: vec![vertex(0, 0), vertex(1, 1), vertex(2, 2)],
            indices: vec![0; n],
            texture_id: 0,
        };
        let clip = ClipRect { left: 0, top: 0, right: 0, bottom: 0 };
        assert!(build_mesh(s, &mesh, clip).is_none(), "index count {n} must be dropped");
    }
}

#[test]
fn from_mesh_matches_build_mesh() {
    let s = screen_800_600();
    let mesh = RawMesh {
        vertices: vec![vertex(px(10), px(20))],
        indices: vec![0, 0, 0],
        texture_id: 4,
    };
    let clip = ClipRect { left: 0, top: 0, right: px(10), bottom: px(10) };
    let a = GpuMesh::from_mesh(s, mesh.clone(), clip).unwrap();
    let b = build_mesh(s, &mesh, clip).unwrap();
    assert_eq!(a, b);
}

#[test]
fn scissor_rounds_toward_zero() {
    // 2.5 pixels becomes 2; -1.5 pixels becomes -1.
    let c = ClipRect {
        left: 2 * (UNIT as i32) + (UNIT as i32) / 2,
        top: -(UNIT as i32) - (UNIT as i32) / 2,
        right: px(640),
        bottom: 0,
    };
    let s = scissor_of(c);
    assert_eq!(s.left, 2);
    assert_eq!(s.top, -1);
    assert_eq!(s.right, 640);
    assert_eq!(s.bottom, 0);
}

#[test]
fn buffer_bytes_sized_exactly_to_counts() {
    assert_eq!(buffer_bytes(3, INDEX_STRIDE), 12);
    assert_eq!(buffer_bytes(4, VERTEX_STRIDE), 128);
    assert_eq!(buffer_bytes(0, VERTEX_STRIDE), 0);
}

#[test]
fn buffer_bytes_saturates_on_absurd_counts() {
    assert_eq!(buffer_bytes(usize::MAX, VERTEX_STRIDE), u64::MAX);
}
