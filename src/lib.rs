//! Geometry, scene state and viewer state for rendering a stack of calibrated
//! projection images as a rotatable pseudo-volume.
//!
//! All quantities that the rendering rules depend on are held exactly: decimal
//! parameters as scaled integers and derived angles and scales as integer
//! ratios. Trigonometry and the GPU work happen outside this crate.
pub mod decimal;
pub mod projection;
pub mod scan;
pub mod scene;
pub mod viewer;
