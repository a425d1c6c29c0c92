//! Core of a 2D shallow-water solver on structured Cartesian meshes.
//!
//! The cell state `(h, hu, hv)`, the physical fluxes, the boundary ghost
//! states and the face-level rules of the finite-volume update are
//! generic over a [`Real`] scalar, so one source serves a plain
//! floating-point scalar and a forward-mode dual number alike. The ESRI
//! ASCII grid reader scans the text format of benchmark DEMs.
//!
//! Row index `i` runs along `y` and column index `j` along `x`; row 0 is
//! the first (northernmost) row of a raster.

pub mod ascii_grid;
pub mod boundary;
pub mod face;
pub mod flux;
pub mod scalar;
pub mod sim;
pub mod state;
pub mod text;

pub use ascii_grid::AsciiGridError;
pub use boundary::{Boundaries2D, Boundary, Side, ghost_state};
pub use flux::{FluxXG, FluxYG};
pub use scalar::{MaybeSendSync, Real};
pub use sim::Integrator;
pub use state::{Conserved2DG, Primitive2DG};
