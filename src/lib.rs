//! Decaying position trails and the tapered ribbon meshes built from them.
//!
//! Positions are fixed-point integers and times are nanoseconds, so that every
//! step of the buffer lifecycle and of the triangulation is exact. A ribbon
//! vertex is described exactly (anchor, side axis, rational half-width); the
//! renderer turns that description into floating-point coordinates.

mod geometry;
mod ribbon;
mod trail;

pub use geometry::{Axis3, Point3, lemma_side_axis_nonzero, side_axis, tangent_between};
pub use ribbon::{
    MAX_SAMPLES, RibbonMesh, RibbonVertex, create_trail_mesh, lemma_progress_and_taper,
    lemma_quad_winding, lemma_rebuild_identical, lemma_ribbon_sizes,
};
pub use trail::{MAX_AGE, NANOS_PER_KILOSECOND, Trail, TrailConfigError, TrailSample};
