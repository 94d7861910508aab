//! The application container and the frame render lifecycle.
//!
//! One long-lived container owns, behind a single mutual-exclusion lock, the
//! backend state bundle and the caller's own state. Every entry point
//! acquires the lock for its full duration and releases it on every return
//! path, so calls arriving from different host threads are serialized and a
//! message that races a frame lands wholly before or wholly after that
//! frame's input drain.
//!
//! A present call captures the pipeline state, drains the input queue, runs
//! one GUI frame, plans the draw pass, binds the fixed states and per-mesh
//! bindings, and restores the captured pipeline state unconditionally — also
//! on the empty frame and on the fatal paint-callback error — so the host's
//! rendering observes no side effects.

use crate::backup::{BackupState, Pipeline, Viewport};
use crate::error::BackendError;
use crate::frame::{plan_frame, plan_outcome, FramePlan, GuiOutput};
use crate::input::{recognized, InputCollector, InputEvent};
use crate::mesh::ScreenSize;
use crate::sync::{cell_is_set, cell_new, cell_set, guard_store, guard_take, mutex_lock, mutex_new};
use vstd::prelude::*;

verus! {

/// The backend's own per-instance state: the input collector, the pipeline
/// snapshot slot, the render-target view handle (`None` only between a
/// resize's release and its recreate), the cached fixed-function state
/// handles, and the shader and layout handles created at initialization.
pub struct AppData {
    pub collector: InputCollector,
    pub backup: BackupState,
    pub render_view: Option<u64>,
    pub blend_state: Option<u64>,
    pub raster_state: Option<u64>,
    pub sampler_state: Option<u64>,
    pub input_layout: u64,
    pub vertex_shader: u64,
    pub pixel_shader: u64,
    pub handle_counter: u64,
    pub clear_on_present: bool,
}

/// Everything the container's one lock guards: the backend state and the
/// caller's state, which the per-frame GUI closure consumes and returns.
pub struct AppShared<T> {
    pub data: AppData,
    pub state: T,
}

/// The fields a frame leaves alone: everything but the cached fixed-function
/// states and the handle counter.
pub open spec fn frame_support_unchanged(a: AppData, b: AppData) -> bool {
    &&& b.collector == a.collector
    &&& b.backup == a.backup
    &&& b.render_view == a.render_view
    &&& b.input_layout == a.input_layout
    &&& b.vertex_shader == a.vertex_shader
    &&& b.pixel_shader == a.pixel_shader
    &&& b.clear_on_present == a.clear_on_present
}

/// One frame ran: the GUI closure was fed the whole pending input batch and
/// the caller's state, and the frame result is exactly the plan of what the
/// closure produced, under the instance's clear toggle and render target.
pub open spec fn frame_ran<T, F: FnOnce(Vec<InputEvent>, T) -> (GuiOutput, T)>(
    pre: AppData,
    screen: ScreenSize,
    state: T,
    run_ui: F,
    plan_res: Result<FramePlan, BackendError>,
    state_out: T,
) -> bool {
    exists|batch: Vec<InputEvent>, gui: GuiOutput|
        batch@ == pre.collector.events@ && (#[trigger] call_ensures(
            run_ui,
            (batch, state),
            (gui, state_out),
        )) && plan_outcome(screen, gui, pre.clear_on_present, pre.render_view, plan_res)
}

impl AppData {
    /// Fresh backend state: empty input queue, no snapshot held, the first
    /// render-target view installed, fixed-function states not yet created.
    pub fn new(clear_on_present: bool) -> (d: AppData)
        ensures
            d.collector.events@ =~= Seq::<InputEvent>::empty(),
            d.backup.saved is None,
            d.render_view == Some(0u64),
            d.blend_state is None,
            d.raster_state is None,
            d.sampler_state is None,
            d.clear_on_present == clear_on_present,
    {
        AppData {
            collector: InputCollector::new(),
            backup: BackupState::new(),
            render_view: Some(0),
            blend_state: None,
            raster_state: None,
            sampler_state: None,
            input_layout: 1,
            vertex_shader: 2,
            pixel_shader: 3,
            handle_counter: 4,
            clear_on_present,
        }
    }

    /// Hands out the counter's current value and advances the counter, so no
    /// two calls on one instance return the same handle until the counter is
    /// exhausted (handle values are never interpreted).
    fn fresh_handle(&mut self) -> (h: u64)
        ensures
            h == old(self).handle_counter,
            old(self).handle_counter < u64::MAX ==> final(self).handle_counter == old(
                self,
            ).handle_counter + 1,
            frame_support_unchanged(*old(self), *final(self)),
            final(self).blend_state == old(self).blend_state,
            final(self).raster_state == old(self).raster_state,
            final(self).sampler_state == old(self).sampler_state,
    {
        let h: u64 = self.handle_counter;
        if self.handle_counter < u64::MAX {
            self.handle_counter = self.handle_counter + 1;
        }
        h
    }

    /// Creates the fixed-function states this backend draws with — the alpha
    /// "over" blend state, the no-cull scissored rasterizer state, and the
    /// bordered linear sampler — once, lazily, and keeps them cached.
    fn ensure_states(&mut self)
        ensures
            frame_support_unchanged(*old(self), *final(self)),
            final(self).blend_state is Some,
            final(self).raster_state is Some,
            final(self).sampler_state is Some,
            old(self).blend_state is Some ==> final(self).blend_state == old(self).blend_state,
            old(self).raster_state is Some ==> final(self).raster_state == old(self).raster_state,
            old(self).sampler_state is Some ==> final(self).sampler_state == old(
                self,
            ).sampler_state,
    {
        if self.blend_state.is_none() {
            let h: u64 = self.fresh_handle();
            self.blend_state = Some(h);
        }
        if self.raster_state.is_none() {
            let h: u64 = self.fresh_handle();
            self.raster_state = Some(h);
        }
        if self.sampler_state.is_none() {
            let h: u64 = self.fresh_handle();
            self.sampler_state = Some(h);
        }
    }

    /// Binds everything a draw pass needs before its first draw: the render
    /// target, the cached fixed-function states, the input layout and both
    /// shaders, triangle-list topology, and a full-screen viewport.
    fn configure_pipeline(&self, pipeline: &mut Pipeline, screen: ScreenSize, target: u64)
        ensures
            *final(pipeline) == (Pipeline {
                render_target: Some(target),
                blend_state: self.blend_state,
                raster_state: self.raster_state,
                sampler: self.sampler_state,
                input_layout: Some(self.input_layout),
                vertex_shader: Some(self.vertex_shader),
                pixel_shader: Some(self.pixel_shader),
                triangle_topology: true,
                viewport: Some(
                    Viewport { x: 0, y: 0, w: screen.w as i64, h: screen.h as i64 },
                ),
                ..*old(pipeline)
            }),
    {
        pipeline.render_target = Some(target);
        pipeline.blend_state = self.blend_state;
        pipeline.raster_state = self.raster_state;
        pipeline.sampler = self.sampler_state;
        pipeline.input_layout = Some(self.input_layout);
        pipeline.vertex_shader = Some(self.vertex_shader);
        pipeline.pixel_shader = Some(self.pixel_shader);
        pipeline.triangle_topology = true;
        pipeline.viewport = Some(Viewport { x: 0, y: 0, w: screen.w as i64, h: screen.h as i64 });
    }

    /// Runs one frame: captures the pipeline, drains the input queue exactly
    /// once, hands the batch and the caller's state to the GUI closure,
    /// plans the draw pass from what the GUI produced, performs the model
    /// bindings draw by draw, and restores the captured pipeline state on
    /// every path — the pipeline leaves exactly as it came.
    pub fn run_frame<T, F: FnOnce(Vec<InputEvent>, T) -> (GuiOutput, T)>(
        &mut self,
        screen: ScreenSize,
        pipeline: &mut Pipeline,
        state: T,
        run_ui: F,
    ) -> ((plan_res, state_out): (Result<FramePlan, BackendError>, T))
        requires
            screen.wf(),
            forall|batch: Vec<InputEvent>, st: T| #[trigger] call_requires(run_ui, (batch, st)),
        ensures
            *final(pipeline) == *old(pipeline),
            final(self).collector.events@ =~= Seq::<InputEvent>::empty(),
            final(self).collector.modifiers == old(self).collector.modifiers,
            final(self).render_view == old(self).render_view,
            final(self).clear_on_present == old(self).clear_on_present,
            final(self).backup.saved is None,
            frame_ran(*old(self), screen, state, run_ui, plan_res, state_out),
    {
        self.backup.save(pipeline);
        let batch = self.collector.collect_input();
        let ghost batch0 = batch;
        let (gui, new_state) = run_ui(batch, state);
        let ghost gui0 = gui;
        let target = self.render_view;
        let res = plan_frame(screen, gui, self.clear_on_present, target);
        match &res {
            Ok(plan) => {
                if plan.draws.len() > 0 {
                    self.ensure_states();
                    match target {
                        Some(t) => {
                            self.configure_pipeline(pipeline, screen, t);
                            let mut k: usize = 0;
                            while k < plan.draws.len()
                                invariant
                                    k <= plan.draws@.len(),
                                    self.backup.saved == Some(*old(pipeline)),
                                    self.collector.events@ =~= Seq::<InputEvent>::empty(),
                                    self.collector.modifiers == old(self).collector.modifiers,
                                    self.render_view == old(self).render_view,
                                    self.clear_on_present == old(self).clear_on_present,
                                decreases plan.draws@.len() - k,
                            {
                                let dc = &plan.draws[k];
                                pipeline.scissor = Some(dc.scissor);
                                pipeline.shader_resource = Some(dc.mesh.texture_id);
                                let vb = self.fresh_handle();
                                pipeline.vertex_buffer = Some(vb);
                                let ib = self.fresh_handle();
                                pipeline.index_buffer = Some(ib);
                                k += 1;
                            }
                        },
                        None => {},
                    }
                }
                self.backup.restore(pipeline);
            },
            Err(_) => {
                self.backup.restore(pipeline);
            },
        }
        proof {
            assert(frame_ran(*old(self), screen, state, run_ui, res, new_state)) by {
                assert(batch0@ == old(self).collector.events@ && call_ensures(
                    run_ui,
                    (batch0, state),
                    (gui0, new_state),
                ) && plan_outcome(
                    screen,
                    gui0,
                    old(self).clear_on_present,
                    old(self).render_view,
                    res,
                ));
            }
        }
        (res, new_state)
    }

    /// Releases the render-target view. Holding a view of the old backbuffer
    /// across the host's buffer resize must never happen.
    pub fn release_render_target(&mut self)
        ensures
            final(self).render_view is None,
            final(self).collector == old(self).collector,
            final(self).backup == old(self).backup,
            final(self).clear_on_present == old(self).clear_on_present,
    {
        self.render_view = None;
    }

    /// Installs the view handle for the render target recreated after a
    /// resize: non-null, and distinct from the view active before the resize.
    pub fn install_render_target(&mut self, prev: Option<u64>) -> (v: u64)
        ensures
            final(self).render_view == Some(v),
            final(self).render_view != prev,
            final(self).collector == old(self).collector,
            final(self).backup == old(self).backup,
            final(self).clear_on_present == old(self).clear_on_present,
    {
        let v: u64 = match prev {
            None => 0,
            Some(p) => if p == u64::MAX {
                0
            } else {
                p + 1
            },
        };
        self.render_view = Some(v);
        v
    }
}

/// The frame result `r` is the planned outcome of some run of the given GUI
/// closure on some pending input batch and caller state, under some clear
/// toggle and render target — the container's lock hides which.
pub open spec fn some_frame_of<T, F: FnOnce(Vec<InputEvent>, T) -> (GuiOutput, T)>(
    screen: ScreenSize,
    run_ui: F,
    r: Result<FramePlan, BackendError>,
) -> bool {
    exists|
        batch: Vec<InputEvent>,
        st: T,
        gui: GuiOutput,
        st2: T,
        clear: bool,
        target: Option<u64>,
    |
        #![trigger call_ensures(run_ui, (batch, st), (gui, st2)), plan_outcome(screen, gui, clear, target, r)]
        call_ensures(run_ui, (batch, st), (gui, st2)) && plan_outcome(screen, gui, clear, target, r)
}

/// The application container: the single explicitly constructed instance the
/// host holds, its whole state bundle behind one lock, and the window handle
/// in a write-once cell.
#[verifier::reject_recursive_types(T)]
pub struct DirectX11App<T> {
    data: parking_lot::Mutex<Option<AppShared<T>>>,
    hwnd: once_cell::sync::OnceCell<i64>,
}

impl<T> DirectX11App<T> {
    /// An uninitialized container. Call an initializer exactly once before
    /// any entry point.
    pub fn new() -> (app: DirectX11App<T>) {
        DirectX11App { data: mutex_new(None), hwnd: cell_new() }
    }

    /// Whether an initializer has completed, making the entry points safe to
    /// call.
    pub fn is_ready(&self) -> bool {
        cell_is_set(&self.hwnd)
    }

    /// Initializes the container with the host's window handle and the
    /// caller's state. Fails on an invalid window handle, and on any call
    /// after the first.
    pub fn init_with_state(&self, window: i64, state: T, clear_on_present: bool) -> (r: Result<
        (),
        BackendError,
    >)
        ensures
            window == -1 <==> r == Err::<(), BackendError>(BackendError::InvalidWindow),
            r matches Err(e) ==> (e == BackendError::InvalidWindow || e
                == BackendError::AlreadyInitialized),
    {
        if window == -1 {
            return Err(BackendError::InvalidWindow);
        }
        if !cell_set(&self.hwnd, window) {
            return Err(BackendError::AlreadyInitialized);
        }
        let mut guard = mutex_lock(&self.data);
        match guard_take(&mut guard) {
            Some(shared) => {
                guard_store(&mut guard, Some(shared));
                Err(BackendError::AlreadyInitialized)
            },
            None => {
                guard_store(
                    &mut guard,
                    Some(AppShared { data: AppData::new(clear_on_present), state }),
                );
                Ok(())
            },
        }
    }

    /// Forwards one raw window message to the input collector, under the
    /// lock, and reports whether it was recognized and consumed.
    pub fn wnd_proc(&self, umsg: u32, wparam: u64, lparam: i64) -> (r: Result<bool, BackendError>)
        ensures
            r matches Ok(consumed) ==> consumed == recognized(umsg),
            r matches Err(e) ==> e == BackendError::NotInitialized,
    {
        let mut guard = mutex_lock(&self.data);
        match guard_take(&mut guard) {
            None => {
                guard_store(&mut guard, None);
                Err(BackendError::NotInitialized)
            },
            Some(mut shared) => {
                let consumed = shared.data.collector.process(umsg, wparam, lparam);
                guard_store(&mut guard, Some(shared));
                Ok(consumed)
            },
        }
    }

    /// Renders one frame onto the current render target, under the lock, and
    /// returns the frame plan: what was uploaded, what the clipboard gets,
    /// and the draw calls issued. Whatever happens — an empty frame, a
    /// missing render target, or the fatal paint-callback error — the
    /// pipeline state leaves exactly as it came.
    pub fn present<F: FnOnce(Vec<InputEvent>, T) -> (GuiOutput, T)>(
        &self,
        screen: ScreenSize,
        pipeline: &mut Pipeline,
        run_ui: F,
    ) -> (r: Result<FramePlan, BackendError>)
        requires
            screen.wf(),
            forall|batch: Vec<InputEvent>, st: T| #[trigger] call_requires(run_ui, (batch, st)),
        ensures
            *final(pipeline) == *old(pipeline),
            r matches Err(e) ==> (e == BackendError::NotInitialized || e
                == BackendError::UnsupportedPaintCallback),
            !(r matches Err(e) && e == BackendError::NotInitialized) ==> some_frame_of(
                screen,
                run_ui,
                r,
            ),
    {
        let mut guard = mutex_lock(&self.data);
        match guard_take(&mut guard) {
            None => {
                guard_store(&mut guard, None);
                Err(BackendError::NotInitialized)
            },
            Some(shared) => {
                let AppShared { mut data, state } = shared;
                let ghost data0 = data;
                let ghost state0 = state;
                let (res, new_state) = data.run_frame(screen, pipeline, state, run_ui);
                proof {
                    let (batch, gui) = choose|batch: Vec<InputEvent>, gui: GuiOutput|
                        batch@ == data0.collector.events@ && (#[trigger] call_ensures(
                            run_ui,
                            (batch, state0),
                            (gui, new_state),
                        )) && plan_outcome(
                            screen,
                            gui,
                            data0.clear_on_present,
                            data0.render_view,
                            res,
                        );
                    assert(some_frame_of(screen, run_ui, res)) by {
                        assert(call_ensures(run_ui, (batch, state0), (gui, new_state))
                            && plan_outcome(
                            screen,
                            gui,
                            data0.clear_on_present,
                            data0.render_view,
                            res,
                        ));
                    }
                }
                guard_store(&mut guard, Some(AppShared { data, state: new_state }));
                res
            },
        }
    }

    /// Wraps the host's own buffer resize: releases the render-target view
    /// first, has the host resize through `host_resize`, recreates the
    /// target through `recreate_target`, and passes the host's status code
    /// through unchanged — also when that status signals failure. The call
    /// succeeds exactly when the recreation reported success; a recreation
    /// failure is fatal, with the host resize already run either way.
    pub fn resize_buffers<F: FnOnce(T) -> T, G: FnOnce() -> i32, H: FnOnce(T) -> (bool, T)>(
        &self,
        release_target: F,
        host_resize: G,
        recreate_target: H,
    ) -> (r: Result<i32, BackendError>)
        requires
            forall|st: T| #[trigger] call_requires(release_target, (st,)),
            call_requires(host_resize, ()),
            forall|st: T| #[trigger] call_requires(recreate_target, (st,)),
        ensures
            r matches Ok(status) ==> call_ensures(host_resize, (), status),
            r matches Ok(status) ==> exists|st: T, st2: T|
                #[trigger] call_ensures(recreate_target, (st,), (true, st2)),
            r == Err::<i32, BackendError>(BackendError::TargetCreation) ==> exists|status: i32|
                #[trigger] call_ensures(host_resize, (), status),
            r == Err::<i32, BackendError>(BackendError::TargetCreation) ==> exists|st: T, st2: T|
                #[trigger] call_ensures(recreate_target, (st,), (false, st2)),
            r matches Err(e) ==> (e == BackendError::NotInitialized || e
                == BackendError::TargetCreation),
    {
        let mut guard = mutex_lock(&self.data);
        match guard_take(&mut guard) {
            None => {
                guard_store(&mut guard, None);
                Err(BackendError::NotInitialized)
            },
            Some(shared) => {
                let AppShared { mut data, state } = shared;
                let prev = data.render_view;
                data.release_render_target();
                let state = release_target(state);
                let status = host_resize();
                let ghost state_in = state;
                let (created, state) = recreate_target(state);
                proof {
                    assert(call_ensures(recreate_target, (state_in,), (created, state)));
                }
                if created {
                    data.install_render_target(prev);
                    guard_store(&mut guard, Some(AppShared { data, state }));
                    Ok(status)
                } else {
                    guard_store(&mut guard, Some(AppShared { data, state }));
                    Err(BackendError::TargetCreation)
                }
            },
        }
    }

    /// Scoped exclusive access to the caller's state, for mutation outside
    /// the render loop: on success the callback ran, once, on the state held
    /// behind the lock.
    pub fn with_user_state<F: FnOnce(T) -> T>(&self, f: F) -> (r: Result<(), BackendError>)
        requires
            forall|st: T| #[trigger] call_requires(f, (st,)),
        ensures
            r is Ok ==> exists|st: T, st2: T| #[trigger] call_ensures(f, (st,), st2),
            r matches Err(e) ==> e == BackendError::NotInitialized,
    {
        let mut guard = mutex_lock(&self.data);
        match guard_take(&mut guard) {
            None => {
                guard_store(&mut guard, None);
                Err(BackendError::NotInitialized)
            },
            Some(shared) => {
                let AppShared { data, state } = shared;
                let ghost state_in = state;
                let state = f(state);
                proof {
                    assert(call_ensures(f, (state_in,), state));
                }
                guard_store(&mut guard, Some(AppShared { data, state }));
                Ok(())
            },
        }
    }
}

impl<T: Default> DirectX11App<T> {
    /// Initializes the container with the caller state's default value.
    pub fn init_default(&self, window: i64, clear_on_present: bool) -> (r: Result<
        (),
        BackendError,
    >)
        ensures
            window == -1 <==> r == Err::<(), BackendError>(BackendError::InvalidWindow),
            r matches Err(e) ==> (e == BackendError::InvalidWindow || e
                == BackendError::AlreadyInitialized),
    {
        self.init_with_state(window, T::default(), clear_on_present)
    }
}

} // verus!
