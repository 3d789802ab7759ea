//! A path tracer's integer core: the plain-text image format it writes, the
//! order in which pixels are emitted, the layout of its random scene and the
//! bounce decisions of its integrator.
pub mod image;
pub mod scene;
pub mod trace;
