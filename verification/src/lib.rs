//! A verified model of a per-frame GUI rendering backend: input collection,
//! mesh generation in fixed-point coordinates, pipeline state backup/restore,
//! frame planning, and the resize protocol, guarded by one mutual-exclusion
//! lock around the whole application state.

pub mod app;
pub mod backup;
pub mod coords;
pub mod error;
pub mod frame;
pub mod input;
pub mod mesh;
pub mod states;
pub mod sync;
