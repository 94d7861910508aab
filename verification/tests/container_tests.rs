use egui_d3d11::app::DirectX11App;
use egui_d3d11::backup::{Pipeline, Viewport};
use egui_d3d11::coords::UNIT;
use egui_d3d11::error::BackendError;
use egui_d3d11::frame::{GuiOutput, Primitive};
use egui_d3d11::input::{InputEvent, WM_MOUSEMOVE};
use egui_d3d11::mesh::{ClipRect, Color, RawMesh, ScreenSize, Vertex};

fn fixed_px(n: i32) -> i32 {
    n * (UNIT as i32)
}

fn screen_640() -> ScreenSize {
    ScreenSize { w: fixed_px(640), h: fixed_px(480) }
}

fn host_pipeline() -> Pipeline {
    Pipeline {
        render_target: Some(1000),
        blend_state: Some(1001),
        raster_state: Some(1002),
        sampler: Some(1003),
        input_layout: Some(1004),
        vertex_shader: Some(1005),
        pixel_shader: Some(1006),
        shader_resource: Some(1007),
        vertex_buffer: Some(1008),
        index_buffer: Some(1009),
        triangle_topology: false,
        viewport: Some(Viewport { x: 0, y: 0, w: 640, h: 480 }),
        scissor: None,
    }
}

fn empty_gui() -> GuiOutput {
    GuiOutput {
        has_texture_deltas: false,
        copied_text: String::new(),
        shapes_empty: true,
        primitives: vec![],
    }
}

fn one_triangle_gui() -> GuiOutput {
    let v = Vertex { x: 0, y: 0, u: 0, v: 0, color: Color { r: 0, g: 0, b: 0, a: 0 } };
    let mesh = RawMesh { vertices: vec![v, v, v], indices: vec![0, 1, 2], texture_id: 5 };
    let clip = ClipRect { left: 0, top: 0, right: fixed_px(640), bottom: fixed_px(480) };
    GuiOutput {
        has_texture_deltas: false,
        copied_text: String::new(),
        shapes_empty: false,
        primitives: vec![Primitive::Mesh { mesh, clip }],
    }
}

fn mouse_lparam(x: i32, y: i32) -> i64 {
    (((y as u16) as i64) << 16) | ((x as u16) as i64)
}

#[test]
fn entry_points_fail_before_initialization() {
    let app: DirectX11App<u32> = DirectX11App::new();
    assert!(!app.is_ready());
    assert_eq!(app.wnd_proc(WM_MOUSEMOVE, 0, 0), Err(BackendError::NotInitialized));
    let mut p = host_pipeline();
    let r = app.present(screen_640(), &mut p, |_batch, st: u32| (empty_gui(), st));
    assert_eq!(r, Err(BackendError::NotInitialized));
    assert_eq!(
        app.resize_buffers(|st| st, || 0, |st| (true, st)),
        Err(BackendError::NotInitialized)
    );
}

#[test]
fn invalid_window_is_fatal_at_initialization() {
    let app: DirectX11App<u32> = DirectX11App::new();
    assert_eq!(app.init_with_state(-1, 0, false), Err(BackendError::InvalidWindow));
}

#[test]
fn initialization_happens_exactly_once() {
    let app: DirectX11App<u32> = DirectX11App::new();
    assert_eq!(app.init_with_state(42, 0, false), Ok(()));
    assert!(app.is_ready());
    assert_eq!(app.init_with_state(42, 0, false), Err(BackendError::AlreadyInitialized));
}

#[test]
fn a_frame_sees_exactly_the_pending_events_then_none() {
    let app: DirectX11App<u32> = DirectX11App::new();
    app.init_with_state(42, 0, false).unwrap();
    for i in 0..4i32 {
        assert_eq!(app.wnd_proc(WM_MOUSEMOVE, 0, mouse_lparam(i, i)), Ok(true));
    }
    assert_eq!(app.wnd_proc(0x0400, 0, 0), Ok(false));
    let mut p = host_pipeline();
    let r = app.present(screen_640(), &mut p, |batch: Vec<InputEvent>, st: u32| {
        assert_eq!(batch.len(), 4);
        for (i, ev) in batch.iter().enumerate() {
            assert_eq!(*ev, InputEvent::PointerMove { x: i as i32, y: i as i32 });
        }
        (empty_gui(), st)
    });
    assert!(r.is_ok());
    let r2 = app.present(screen_640(), &mut p, |batch: Vec<InputEvent>, st: u32| {
        assert!(batch.is_empty());
        (empty_gui(), st)
    });
    assert!(r2.is_ok());
}

#[test]
fn present_restores_the_pipeline_exactly() {
    let app: DirectX11App<u32> = DirectX11App::new();
    app.init_with_state(42, 0, true).unwrap();
    let original = host_pipeline();

    // An empty frame: zero draw calls, pipeline bit-identical afterwards.
    let mut p = original;
    let plan = app.present(screen_640(), &mut p, |_b, st: u32| (empty_gui(), st)).unwrap();
    assert!(plan.draws.is_empty());
    assert_eq!(p, original);

    // A drawing frame: one draw call, pipeline still bit-identical.
    let plan = app.present(screen_640(), &mut p, |_b, st: u32| (one_triangle_gui(), st)).unwrap();
    assert_eq!(plan.draws.len(), 1);
    assert_eq!(plan.draws[0].mesh.texture_id, 5);
    assert_eq!(p, original);

    // The fatal paint-callback error: pipeline still restored.
    let callback_gui = GuiOutput {
        has_texture_deltas: false,
        copied_text: String::new(),
        shapes_empty: false,
        primitives: vec![Primitive::Callback],
    };
    let r = app.present(screen_640(), &mut p, move |_b, st: u32| (callback_gui, st));
    assert_eq!(r, Err(BackendError::UnsupportedPaintCallback));
    assert_eq!(p, original);
}

#[test]
fn resize_calls_host_once_and_yields_a_fresh_target() {
    let app: DirectX11App<u32> = DirectX11App::new();
    app.init_with_state(42, 0, false).unwrap();
    let mut p = host_pipeline();

    let before = app.present(screen_640(), &mut p, |_b, st: u32| (one_triangle_gui(), st)).unwrap();
    assert!(before.target.is_some());

    let mut host_calls = 0u32;
    let r = app.resize_buffers(
        |st| st,
        || {
            host_calls += 1;
            77
        },
        |st| (true, st),
    );
    assert_eq!(r, Ok(77));
    assert_eq!(host_calls, 1);

    let after = app.present(screen_640(), &mut p, |_b, st: u32| (one_triangle_gui(), st)).unwrap();
    assert!(after.target.is_some());
    assert_ne!(after.target, before.target);
}

#[test]
fn failed_target_recreation_is_fatal_and_frames_skip_drawing() {
    let app: DirectX11App<u32> = DirectX11App::new();
    app.init_with_state(42, 0, false).unwrap();
    let r = app.resize_buffers(|st| st, || 0, |st| (false, st));
    assert_eq!(r, Err(BackendError::TargetCreation));

    // The view stays released: a frame draws nothing, tolerated, no error.
    let mut p = host_pipeline();
    let original = p;
    let plan = app.present(screen_640(), &mut p, |_b, st: u32| (one_triangle_gui(), st)).unwrap();
    assert_eq!(plan.target, None);
    assert!(plan.draws.is_empty());
    assert_eq!(p, original);
}

#[test]
fn host_resize_runs_once_even_when_recreation_fails() {
    let app: DirectX11App<u32> = DirectX11App::new();
    app.init_with_state(42, 0, false).unwrap();
    let mut host_calls = 0u32;
    let r = app.resize_buffers(
        |st| st,
        || {
            host_calls += 1;
            0
        },
        |st| (false, st),
    );
    assert_eq!(r, Err(BackendError::TargetCreation));
    assert_eq!(host_calls, 1);
}

#[test]
fn host_status_code_passes_through_unchanged() {
    let app: DirectX11App<u32> = DirectX11App::new();
    app.init_with_state(42, 0, false).unwrap();
    assert_eq!(app.resize_buffers(|st| st, || -2005270527, |st| (true, st)), Ok(-2005270527));
}

#[test]
fn user_state_flows_through_frames_and_scoped_access() {
    let app: DirectX11App<u32> = DirectX11App::new();
    app.init_with_state(42, 7, false).unwrap();
    app.with_user_state(|s| s + 1).unwrap();
    let mut p = host_pipeline();
    app.present(screen_640(), &mut p, |_b, st: u32| {
        assert_eq!(st, 8);
        (empty_gui(), st + 10)
    })
    .unwrap();
    app.present(screen_640(), &mut p, |_b, st: u32| {
        assert_eq!(st, 18);
        (empty_gui(), st)
    })
    .unwrap();
}

#[test]
fn clipboard_request_reaches_the_plan() {
    let app: DirectX11App<u32> = DirectX11App::new();
    app.init_with_state(42, 0, false).unwrap();
    let mut p = host_pipeline();
    let plan = app
        .present(screen_640(), &mut p, |_b, st: u32| {
            let mut g = empty_gui();
            g.copied_text = String::from("selected text");
            (g, st)
        })
        .unwrap();
    assert_eq!(plan.clipboard_text.as_deref(), Some("selected text"));
}

#[test]
fn init_default_uses_the_default_state() {
    let app: DirectX11App<u32> = DirectX11App::new();
    app.init_default(42, false).unwrap();
    let mut p = host_pipeline();
    app.present(screen_640(), &mut p, |_b, st: u32| {
        assert_eq!(st, 0);
        (empty_gui(), st)
    })
    .unwrap();
}
