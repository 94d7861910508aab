//! Render state backup: a snapshot of the pipeline state this backend is
//! about to overwrite, captured before a frame and reapplied after it, so
//! the host's own rendering observes no side effects.
//!
//! The pipeline is modelled as the bundle of bindings the backend touches.
//! Handles stand for the host's opaque state objects; their values are never
//! interpreted, only saved and put back.

use crate::mesh::ScissorPx;
use vstd::prelude::*;

verus! {

/// A viewport in fixed-point pixels.
#[derive(Clone, Copy, PartialEq, Eq, Debug)]
pub struct Viewport {
    pub x: i64,
    pub y: i64,
    pub w: i64,
    pub h: i64,
}

/// The subset of pipeline state this backend overwrites while drawing.
/// `None` stands for an unbound slot.
#[derive(Clone, Copy, PartialEq, Eq, Debug)]
pub struct Pipeline {
    pub render_target: Option<u64>,
    pub blend_state: Option<u64>,
    pub raster_state: Option<u64>,
    pub sampler: Option<u64>,
    pub input_layout: Option<u64>,
    pub vertex_shader: Option<u64>,
    pub pixel_shader: Option<u64>,
    pub shader_resource: Option<u64>,
    pub vertex_buffer: Option<u64>,
    pub index_buffer: Option<u64>,
    pub triangle_topology: bool,
    pub viewport: Option<Viewport>,
    pub scissor: Option<ScissorPx>,
}

/// Holds the snapshot taken at the start of a frame, for the restore at its
/// end. Owned for the duration of one present call; never persisted across
/// frames.
#[derive(Clone, Copy, PartialEq, Eq, Debug)]
pub struct BackupState {
    pub saved: Option<Pipeline>,
}

impl BackupState {
    /// No snapshot held.
    pub fn new() -> (b: BackupState)
        ensures
            b.saved is None,
    {
        BackupState { saved: None }
    }

    /// Captures the pipeline state as it stands.
    pub fn save(&mut self, p: &Pipeline)
        ensures
            final(self).saved == Some(*p),
    {
        self.saved = Some(*p);
    }

    /// Reapplies the captured snapshot to the pipeline and releases it. The
    /// pipeline leaves exactly as it was when `save` ran.
    pub fn restore(&mut self, p: &mut Pipeline)
        requires
            old(self).saved is Some,
        ensures
            *final(p) == old(self).saved->Some_0,
            final(self).saved is None,
    {
        match self.saved {
            Some(snapshot) => {
                *p = snapshot;
                self.saved = None;
            },
            None => {},
        }
    }
}

} // verus!
