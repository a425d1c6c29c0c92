//! Boundary conditions for the 2D solver: 4 sides, 4 kinds, ghost cells.
//!
//! Boundary conditions are imposed via a single ghost cell adjacent to
//! each boundary face; the numerical flux at the boundary face is the
//! well-balanced flux between the ghost cell and the first inner cell.
//!
//! # Sign convention for [`Boundary::Discharge`]
//!
//! `q` is prescribed in the *coordinate-axis* direction, not as "inflow
//! positive": for `West`/`East` faces `q` sets `hu`, for `North`/`South`
//! faces it sets `hv`.
//!
//! # Tangential momentum at physical boundaries
//!
//! At an `x`-normal face the tangential momentum is `hv`; at a
//! `y`-normal face it is `hu`. `Discharge` and `Depth` extrapolate the
//! tangential component as zero-gradient; `Wall` reverses only the
//! normal component.
use vstd::prelude::*;

use crate::scalar::Real;
use crate::state::Conserved2DG;

verus! {

/// Which side of the rectangular domain a boundary lives on.
///
/// Row `i` runs along `y` and column `j` along `x`: `North` is row
/// `i = 0`, `South` is row `i = n_rows - 1`, `West` is column `j = 0`
/// and `East` is column `j = n_cols - 1`.
#[derive(Debug, Clone, Copy, PartialEq, Eq, Structural)]
pub enum Side {
    /// Top of the matrix (`i = 0`); face is normal to `y`.
    North,
    /// Bottom of the matrix (`i = n_rows - 1`); face is normal to `y`.
    South,
    /// First column (`j = 0`); face is normal to `x`.
    West,
    /// Last column (`j = n_cols - 1`); face is normal to `x`.
    East,
}

impl Side {
    /// Whether the side's face is normal to the `x` axis.
    pub open spec fn spec_is_x_face(self) -> bool {
        self is West || self is East
    }

    /// Is the face normal to the `x` axis (West/East)?
    pub fn is_x_face(self) -> (r: bool)
        ensures
            r == self.spec_is_x_face(),
    {
        match self {
            Side::West | Side::East => true,
            Side::North | Side::South => false,
        }
    }
}


/// Boundary kind at one side of the 2D domain, generic over the scalar
/// type of its prescribed values.
#[derive(Debug, Clone, Copy, PartialEq)]
pub enum Boundary<T> {
    /// Zero-gradient outflow: the ghost equals the adjacent inner cell.
    Transmissive,
    /// Reflective wall: the ghost mirrors the inner cell with reversed
    /// *normal* momentum, preserving the tangential momentum and depth.
    Wall,
    /// Prescribed unit discharge along the coordinate axis normal to the
    /// face: `hu = q` for `West`/`East` faces, `hv = q` for `North`/
    /// `South` faces. Depth and tangential momentum are zero-gradient.
    Discharge {
        /// Prescribed normal-direction discharge `q` [m²/s] in the
        /// coordinate-axis convention.
        q: T,
    },
    /// Prescribed depth at the boundary. Both momentum components are
    /// zero-gradient.
    Depth {
        /// Prescribed water depth [m] imposed in the ghost cell.
        h: T,
    },
}

/// Set of boundary conditions for all four sides of the 2D domain.
#[derive(Debug, Clone, Copy, PartialEq)]
pub struct Boundaries2D<T> {
    /// Boundary on the `North` side (`i = 0`).
    pub north: Boundary<T>,
    /// Boundary on the `South` side (`i = n_rows - 1`).
    pub south: Boundary<T>,
    /// Boundary on the `West` side (`j = 0`).
    pub west: Boundary<T>,
    /// Boundary on the `East` side (`j = n_cols - 1`).
    pub east: Boundary<T>,
}

impl<T> Boundaries2D<T> {
    /// All four sides transmissive (open box).
    pub fn transmissive() -> (r: Self)
        ensures
            r.north is Transmissive && r.south is Transmissive && r.west is Transmissive
                && r.east is Transmissive,
    {
        Boundaries2D {
            north: Boundary::Transmissive,
            south: Boundary::Transmissive,
            west: Boundary::Transmissive,
            east: Boundary::Transmissive,
        }
    }

    /// All four sides walls (closed box).
    pub fn walls() -> (r: Self)
        ensures
            r.north is Wall && r.south is Wall && r.west is Wall && r.east is Wall,
    {
        Boundaries2D {
            north: Boundary::Wall,
            south: Boundary::Wall,
            west: Boundary::Wall,
            east: Boundary::Wall,
        }
    }
}

/// The ghost state of boundary `kind` on `side` next to inner cell
/// `inner`.
pub open spec fn spec_ghost_state<T: Real>(
    inner: Conserved2DG<T>,
    kind: Boundary<T>,
    side: Side,
) -> Conserved2DG<T> {
    match kind {
        Boundary::Transmissive => inner,
        Boundary::Wall => if side.spec_is_x_face() {
            Conserved2DG { h: inner.h, hu: inner.hu.neg_spec(), hv: inner.hv }
        } else {
            Conserved2DG { h: inner.h, hu: inner.hu, hv: inner.hv.neg_spec() }
        },
        Boundary::Discharge { q } => if side.spec_is_x_face() {
            Conserved2DG { h: inner.h, hu: q, hv: inner.hv }
        } else {
            Conserved2DG { h: inner.h, hu: inner.hu, hv: q }
        },
        Boundary::Depth { h } => Conserved2DG { h, hu: inner.hu, hv: inner.hv },
    }
}

/// The conservative state of the ghost cell across the boundary face on
/// `side`, next to inner cell `inner`, for boundary kind `kind`.
pub fn ghost_state<T: Real>(inner: Conserved2DG<T>, kind: Boundary<T>, side: Side) -> (r:
    Conserved2DG<T>)
    ensures
        r == spec_ghost_state(inner, kind, side),
{
    match kind {
        Boundary::Transmissive => inner,
        Boundary::Wall => {
            if side.is_x_face() {
                Conserved2DG { h: inner.h, hu: inner.hu.neg(), hv: inner.hv }
            } else {
                Conserved2DG { h: inner.h, hu: inner.hu, hv: inner.hv.neg() }
            }
        },
        Boundary::Discharge { q } => {
            if side.is_x_face() {
                Conserved2DG { h: inner.h, hu: q, hv: inner.hv }
            } else {
                Conserved2DG { h: inner.h, hu: inner.hu, hv: q }
            }
        },
        Boundary::Depth { h } => Conserved2DG { h, hu: inner.hu, hv: inner.hv },
    }
}


/// A transmissive boundary's ghost is the inner cell itself, on every
/// side.
pub proof fn lemma_transmissive_ghost_is_inner<T: Real>(inner: Conserved2DG<T>, side: Side)
    ensures
        spec_ghost_state(inner, Boundary::Transmissive, side) == inner,
{
}

/// A wall's ghost keeps the depth and the tangential momentum of the
/// inner cell and reverses its normal momentum: `hu` on `West`/`East`
/// faces, `hv` on `North`/`South` faces.
pub proof fn lemma_wall_ghost_reverses_normal_momentum<T: Real>(inner: Conserved2DG<T>, side: Side)
    ensures
        ({
            let g = spec_ghost_state(inner, Boundary::Wall, side);
            &&& g.h == inner.h
            &&& side.spec_is_x_face() ==> g.hu == inner.hu.neg_spec() && g.hv == inner.hv
            &&& !side.spec_is_x_face() ==> g.hu == inner.hu && g.hv == inner.hv.neg_spec()
        }),
{
}

/// A discharge boundary's ghost carries the prescribed `q` as its normal
/// momentum, and the inner cell's depth and tangential momentum.
pub proof fn lemma_discharge_ghost_prescribes_normal_momentum<T: Real>(
    inner: Conserved2DG<T>,
    q: T,
    side: Side,
)
    ensures
        ({
            let g = spec_ghost_state(inner, Boundary::Discharge { q }, side);
            &&& g.h == inner.h
            &&& side.spec_is_x_face() ==> g.hu == q && g.hv == inner.hv
            &&& !side.spec_is_x_face() ==> g.hu == inner.hu && g.hv == q
        }),
{
}

/// A depth boundary's ghost carries the prescribed depth and both
/// momentum components of the inner cell, on every side.
pub proof fn lemma_depth_ghost_prescribes_depth<T: Real>(inner: Conserved2DG<T>, h: T, side: Side)
    ensures
        spec_ghost_state(inner, Boundary::Depth { h }, side) == (Conserved2DG {
            h,
            hu: inner.hu,
            hv: inner.hv,
        }),
{
}

/// Only a depth boundary changes the ghost's depth: every other kind
/// copies the inner cell's depth.
pub proof fn lemma_ghost_depth_is_inner_unless_prescribed<T: Real>(
    inner: Conserved2DG<T>,
    kind: Boundary<T>,
    side: Side,
)
    requires
        !(kind is Depth),
    ensures
        spec_ghost_state(inner, kind, side).h == inner.h,
{
}

/// A wall applied to the ghost of a wall gives back the inner cell: the
/// normal momentum is reversed twice.
pub proof fn lemma_wall_twice_is_inner<T: Real>(inner: Conserved2DG<T>, side: Side)
    ensures
        spec_ghost_state(spec_ghost_state(inner, Boundary::Wall, side), Boundary::Wall, side)
            == inner,
{
    T::lemma_neg_involution(inner.hu);
    T::lemma_neg_involution(inner.hv);
}

/// The ghost of a wall next to a cell at rest is at rest: its normal
/// momentum, the negation of a zero value, has value zero.
pub proof fn lemma_wall_ghost_of_rest_is_at_rest<T: Real>(inner: Conserved2DG<T>, side: Side)
    requires
        inner.hu.value_is_zero_spec(),
        inner.hv.value_is_zero_spec(),
    ensures
        spec_ghost_state(inner, Boundary::Wall, side).h == inner.h,
        spec_ghost_state(inner, Boundary::Wall, side).hu.value_is_zero_spec(),
        spec_ghost_state(inner, Boundary::Wall, side).hv.value_is_zero_spec(),
{
    T::lemma_neg_involution(inner.hu);
    T::lemma_neg_involution(inner.hv);
}

/// `West` and `East` faces are normal to `x`; `North` and `South` faces
/// are normal to `y`.
pub proof fn lemma_x_faces_are_west_and_east()
    ensures
        Side::West.spec_is_x_face(),
        Side::East.spec_is_x_face(),
        !Side::North.spec_is_x_face(),
        !Side::South.spec_is_x_face(),
{
}

} // verus!
