//! Live shader preview core: the hot-reload and pipeline-lifecycle subsystem.
//!
//! The library owns the render-loop state machine, the pipeline build
//! protocol (WGSL front-end validation and the pipeline generation counter),
//! the surface configuration, and the per-frame uniform clock. The windowing
//! layer, the filesystem watcher thread and the graphics device are external
//! collaborators: they feed events in and carry the returned directives out.

pub mod canvas;
pub mod clock;
pub mod laws;
pub mod render_loop;
pub mod shader;
