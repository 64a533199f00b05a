//! A three-pass compute ray tracer, as seen from the host: the binary layout
//! of the records that the kernels decode, the bind-group layouts of the
//! three pipelines, the life cycle of the per-resolution GPU resources, and
//! the plan of the commands recorded for one frame.
pub mod binding;
pub mod frame;
pub mod layout;
pub mod pipeline;
pub mod platform;
pub mod renderer;
