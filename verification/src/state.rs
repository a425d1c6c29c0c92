//! State variables for the 2D Saint-Venant system.
//!
//! Conserved variables are `U = (h, hu, hv)` with `h` the water depth,
//! `hu` and `hv` the discharges per unit width along `x` and `y`.
//! Primitives `(h, u, v)` are kept for the API boundary where users
//! reason in physical terms. Both are generic over the scalar type.
use vstd::prelude::*;

use crate::scalar::Real;

verus! {

/// Conservative state of a single finite-volume cell in 2D, generic
/// over the scalar type.
#[derive(Debug, Clone, Copy, PartialEq)]
pub struct Conserved2DG<T> {
    /// Water depth [m]. The solver enforces the wet/dry threshold at
    /// the update level, not at the type level.
    pub h: T,
    /// Discharge per unit width in the `x` direction [m²/s], `h · u`.
    pub hu: T,
    /// Discharge per unit width in the `y` direction [m²/s], `h · v`.
    pub hv: T,
}

/// Primitive state: depth and `(u, v)` velocity components, generic
/// over the scalar type.
#[derive(Debug, Clone, Copy, PartialEq)]
pub struct Primitive2DG<T> {
    /// Water depth [m].
    pub h: T,
    /// Depth-averaged velocity in the `x` direction [m/s].
    pub u: T,
    /// Depth-averaged velocity in the `y` direction [m/s].
    pub v: T,
}

impl<T: Real> Conserved2DG<T> {
    /// The dry cell: zero depth and zero discharge in both directions.
    pub open spec fn spec_dry() -> Self {
        Conserved2DG { h: T::zero_spec(), hu: T::zero_spec(), hv: T::zero_spec() }
    }

    /// Gravity-wave celerity `√(g · max(h, 0))`.
    pub open spec fn spec_celerity(self) -> T {
        self.h.max_spec(T::zero_spec()).mul_spec(T::gravity_spec()).sqrt_spec()
    }

    /// Primitive view of the cell: velocities `hu / h` and `hv / h` when
    /// the depth's value exceeds `dry_tol`, zero velocities otherwise.
    pub open spec fn spec_to_primitive(self, dry_tol: T) -> Primitive2DG<T> {
        if self.h.value_gt_spec(dry_tol) {
            Primitive2DG { h: self.h, u: self.hu.div_spec(self.h), v: self.hv.div_spec(self.h) }
        } else {
            Primitive2DG { h: self.h, u: T::zero_spec(), v: T::zero_spec() }
        }
    }

    /// Velocity magnitude `√(hu² + hv²) / h` when the depth's value
    /// exceeds `dry_tol`, zero otherwise.
    pub open spec fn spec_speed(self, dry_tol: T) -> T {
        if self.h.value_gt_spec(dry_tol) {
            self.hu.mul_spec(self.hu).add_spec(self.hv.mul_spec(self.hv)).sqrt_spec().div_spec(
                self.h,
            )
        } else {
            T::zero_spec()
        }
    }

    /// Generic constructor. No validation: invariants are the solver's
    /// job.
    pub fn new_generic(h: T, hu: T, hv: T) -> (r: Self)
        ensures
            r == (Conserved2DG { h, hu, hv }),
    {
        Conserved2DG { h, hu, hv }
    }

    /// Dry cell: zero depth, zero discharge in both directions.
    pub fn dry() -> (r: Self)
        ensures
            r == Self::spec_dry(),
    {
        Conserved2DG { h: T::zero(), hu: T::zero(), hv: T::zero() }
    }

    /// Convert to primitives. Returns zero velocities for cells whose
    /// depth value does not exceed `dry_tol`, avoiding `0/0`. The branch
    /// is taken on the value of `h`, so a derivative carried by `h` is
    /// well defined on each side of the threshold.
    pub fn to_primitive(self, dry_tol: T) -> (r: Primitive2DG<T>)
        ensures
            r == self.spec_to_primitive(dry_tol),
    {
        if self.h.value_gt(&dry_tol) {
            Primitive2DG { h: self.h, u: self.hu.div(self.h), v: self.hv.div(self.h) }
        } else {
            Primitive2DG { h: self.h, u: T::zero(), v: T::zero() }
        }
    }

    /// Gravity wave celerity `√(g h)` for this cell. The depth is
    /// clamped to non-negative so a transiently negative draft does not
    /// produce a `NaN`.
    pub fn celerity(self) -> (r: T)
        ensures
            r == self.spec_celerity(),
    {
        self.h.max(T::zero()).mul(T::gravity()).sqrt()
    }

    /// Velocity magnitude `√(u² + v²)` for cells with depth above
    /// `dry_tol`; zero for dry cells.
    pub fn speed(self, dry_tol: T) -> (r: T)
        ensures
            r == self.spec_speed(dry_tol),
    {
        if self.h.value_gt(&dry_tol) {
            self.hu.mul(self.hu).add(self.hv.mul(self.hv)).sqrt().div(self.h)
        } else {
            T::zero()
        }
    }
}

impl<T: Real> Primitive2DG<T> {
    /// Conserved view `(h, h · u, h · v)` of a primitive state.
    pub open spec fn spec_to_conserved(self) -> Conserved2DG<T> {
        Conserved2DG { h: self.h, hu: self.h.mul_spec(self.u), hv: self.h.mul_spec(self.v) }
    }

    /// Generic constructor.
    pub fn new_generic(h: T, u: T, v: T) -> (r: Self)
        ensures
            r == (Primitive2DG { h, u, v }),
    {
        Primitive2DG { h, u, v }
    }

    /// Convert to conserved variables.
    pub fn to_conserved(self) -> (r: Conserved2DG<T>)
        ensures
            r == self.spec_to_conserved(),
    {
        Conserved2DG { h: self.h, hu: self.h.mul(self.u), hv: self.h.mul(self.v) }
    }
}


/// A cell whose depth value does not exceed the tolerance has zero
/// velocity components and zero speed; its depth is kept as is.
pub proof fn lemma_dry_cell_is_at_rest<T: Real>(c: Conserved2DG<T>, dry_tol: T)
    requires
        !c.h.value_gt_spec(dry_tol),
    ensures
        c.spec_to_primitive(dry_tol) == (Primitive2DG {
            h: c.h,
            u: T::zero_spec(),
            v: T::zero_spec(),
        }),
        c.spec_speed(dry_tol) == T::zero_spec(),
{
}

/// Converting primitives to conserved variables keeps the depth, and a
/// wet cell's primitives are its discharges divided by its depth.
pub proof fn lemma_conversions_keep_depth<T: Real>(c: Conserved2DG<T>, p: Primitive2DG<T>, dry_tol: T)
    ensures
        p.spec_to_conserved().h == p.h,
        c.spec_to_primitive(dry_tol).h == c.h,
        c.h.value_gt_spec(dry_tol) ==> c.spec_to_primitive(dry_tol).u == c.hu.div_spec(c.h)
            && c.spec_to_primitive(dry_tol).v == c.hv.div_spec(c.h),
{
}

/// The celerity of a cell whose depth's value is greater than zero is
/// `√(h · g)` of its own depth; that of any other cell is the square
/// root of a zero-valued depth times `g`.
pub proof fn lemma_celerity_of_depth<T: Real>(c: Conserved2DG<T>)
    ensures
        c.h.value_gt_spec(T::zero_spec()) ==> c.spec_celerity() == c.h.mul_spec(
            T::gravity_spec(),
        ).sqrt_spec(),
        !c.h.value_gt_spec(T::zero_spec()) ==> c.h.max_spec(T::zero_spec()).value_is_zero_spec(),
{
    if c.h.value_gt_spec(T::zero_spec()) {
        T::lemma_max_zero_of_positive(c.h);
    } else {
        T::lemma_max_zero_of_nonpositive(c.h);
    }
}

/// The cell-state formulas. The dry cell is zero in every component;
/// the celerity is `√(max(h, 0) · g)`; a cell whose depth's value
/// exceeds `dry_tol` has velocities `(hu / h, hv / h)` and speed
/// `√(hu·hu + hv·hv) / h`, any other has zero velocities and zero
/// speed; primitives `(h, u, v)` convert to `(h, h·u, h·v)`.
pub proof fn lemma_state_formulas<T: Real>(c: Conserved2DG<T>, p: Primitive2DG<T>, dry_tol: T)
    ensures
        Conserved2DG::<T>::spec_dry() == (Conserved2DG {
            h: T::zero_spec(),
            hu: T::zero_spec(),
            hv: T::zero_spec(),
        }),
        c.spec_celerity() == c.h.max_spec(T::zero_spec()).mul_spec(T::gravity_spec()).sqrt_spec(),
        c.h.value_gt_spec(dry_tol) ==> c.spec_to_primitive(dry_tol) == (Primitive2DG {
            h: c.h,
            u: c.hu.div_spec(c.h),
            v: c.hv.div_spec(c.h),
        }),
        c.h.value_gt_spec(dry_tol) ==> c.spec_speed(dry_tol) == c.hu.mul_spec(c.hu).add_spec(
            c.hv.mul_spec(c.hv),
        ).sqrt_spec().div_spec(c.h),
        !c.h.value_gt_spec(dry_tol) ==> c.spec_speed(dry_tol) == T::zero_spec(),
        p.spec_to_conserved() == (Conserved2DG {
            h: p.h,
            hu: p.h.mul_spec(p.u),
            hv: p.h.mul_spec(p.v),
        }),
{
}

} // verus!
