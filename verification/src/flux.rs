//! 2D Saint-Venant flux vectors.
//!
//! ```text
//!   F_x(U) = (hu, hu²/h + g h²/2, hu hv / h)
//!   F_y(U) = (hv, hv hu / h, hv²/h + g h²/2)
//! ```
//!
//! The hydrostatic-pressure term `g h²/2` appears only in the diagonal
//! components. Types are generic over the scalar type.
use vstd::prelude::*;

use crate::scalar::Real;
use crate::state::Conserved2DG;

verus! {

/// Flux through a face whose outward normal is in the `+x` direction.
#[derive(Debug, Clone, Copy, PartialEq)]
pub struct FluxXG<T> {
    /// Mass flux `h · u`.
    pub mass: T,
    /// `x`-momentum flux `h u² + g h²/2`.
    pub x_momentum: T,
    /// `y`-momentum flux `h u v`.
    pub y_momentum: T,
}

/// Flux through a face whose outward normal is in the `+y` direction.
#[derive(Debug, Clone, Copy, PartialEq)]
pub struct FluxYG<T> {
    /// Mass flux `h · v`.
    pub mass: T,
    /// `x`-momentum flux `h u v`.
    pub x_momentum: T,
    /// `y`-momentum flux `h v² + g h²/2`.
    pub y_momentum: T,
}

/// The depth a flux is evaluated on: `max(h, 0)`.
pub open spec fn clamped_depth<T: Real>(u: Conserved2DG<T>) -> T {
    u.h.max_spec(T::zero_spec())
}

/// Hydrostatic pressure term `h · h · (½ · g)`.
pub open spec fn pressure<T: Real>(h: T) -> T {
    h.mul_spec(h).mul_spec(T::half_spec().mul_spec(T::gravity_spec()))
}

impl<T: Real> FluxXG<T> {
    /// The zero flux.
    pub open spec fn spec_zero() -> Self {
        FluxXG { mass: T::zero_spec(), x_momentum: T::zero_spec(), y_momentum: T::zero_spec() }
    }

    /// `F_x(U)`, zero when the clamped depth's value is zero.
    pub open spec fn spec_from_state(u: Conserved2DG<T>) -> Self {
        let h = clamped_depth(u);
        if h.value_is_zero_spec() {
            Self::spec_zero()
        } else {
            FluxXG {
                mass: u.hu,
                x_momentum: u.hu.mul_spec(u.hu).div_spec(h).add_spec(pressure(h)),
                y_momentum: u.hu.mul_spec(u.hv).div_spec(h),
            }
        }
    }

    /// Zero flux. Used as the trivial value for dry interfaces.
    pub fn zero() -> (r: Self)
        ensures
            r == Self::spec_zero(),
    {
        FluxXG { mass: T::zero(), x_momentum: T::zero(), y_momentum: T::zero() }
    }

    /// Compute `F_x(U)` for a conservative state. Returns zero flux when
    /// the cell is dry. The branch is taken on the value of the clamped
    /// depth; when that value is zero the whole flux is zero.
    pub fn from_state(u: Conserved2DG<T>) -> (r: Self)
        ensures
            r == Self::spec_from_state(u),
    {
        let h = u.h.max(T::zero());
        if h.value_is_zero() {
            return Self::zero();
        }
        FluxXG {
            mass: u.hu,
            x_momentum: u.hu.mul(u.hu).div(h).add(h.mul(h).mul(T::half().mul(T::gravity()))),
            y_momentum: u.hu.mul(u.hv).div(h),
        }
    }
}

impl<T: Real> FluxYG<T> {
    /// The zero flux.
    pub open spec fn spec_zero() -> Self {
        FluxYG { mass: T::zero_spec(), x_momentum: T::zero_spec(), y_momentum: T::zero_spec() }
    }

    /// `F_y(U)`, zero when the clamped depth's value is zero.
    pub open spec fn spec_from_state(u: Conserved2DG<T>) -> Self {
        let h = clamped_depth(u);
        if h.value_is_zero_spec() {
            Self::spec_zero()
        } else {
            FluxYG {
                mass: u.hv,
                x_momentum: u.hv.mul_spec(u.hu).div_spec(h),
                y_momentum: u.hv.mul_spec(u.hv).div_spec(h).add_spec(pressure(h)),
            }
        }
    }

    /// Zero flux.
    pub fn zero() -> (r: Self)
        ensures
            r == Self::spec_zero(),
    {
        FluxYG { mass: T::zero(), x_momentum: T::zero(), y_momentum: T::zero() }
    }

    /// Compute `F_y(U)` for a conservative state. Returns zero flux when
    /// the cell is dry.
    pub fn from_state(u: Conserved2DG<T>) -> (r: Self)
        ensures
            r == Self::spec_from_state(u),
    {
        let h = u.h.max(T::zero());
        if h.value_is_zero() {
            return Self::zero();
        }
        FluxYG {
            mass: u.hv,
            x_momentum: u.hv.mul(u.hu).div(h),
            y_momentum: u.hv.mul(u.hv).div(h).add(h.mul(h).mul(T::half().mul(T::gravity()))),
        }
    }
}


/// A state whose clamped depth has value zero carries no flux in either
/// direction.
pub proof fn lemma_dry_state_has_zero_flux<T: Real>(u: Conserved2DG<T>)
    requires
        clamped_depth(u).value_is_zero_spec(),
    ensures
        FluxXG::<T>::spec_from_state(u) == FluxXG::<T>::spec_zero(),
        FluxYG::<T>::spec_from_state(u) == FluxYG::<T>::spec_zero(),
{
}

/// On a wet state the mass flux through a face is the discharge normal
/// to it, and the pressure term enters only the normal momentum flux:
/// the tangential momentum flux is the advected discharge.
pub proof fn lemma_wet_state_flux_components<T: Real>(u: Conserved2DG<T>)
    requires
        !clamped_depth(u).value_is_zero_spec(),
    ensures
        FluxXG::<T>::spec_from_state(u).mass == u.hu,
        FluxYG::<T>::spec_from_state(u).mass == u.hv,
        FluxXG::<T>::spec_from_state(u).y_momentum == u.hu.mul_spec(u.hv).div_spec(
            clamped_depth(u),
        ),
        FluxYG::<T>::spec_from_state(u).x_momentum == u.hv.mul_spec(u.hu).div_spec(
            clamped_depth(u),
        ),
        FluxXG::<T>::spec_from_state(u).x_momentum == u.hu.mul_spec(u.hu).div_spec(
            clamped_depth(u),
        ).add_spec(pressure(clamped_depth(u))),
        FluxYG::<T>::spec_from_state(u).y_momentum == u.hv.mul_spec(u.hv).div_spec(
            clamped_depth(u),
        ).add_spec(pressure(clamped_depth(u))),
{
}

/// The `y`-momentum flux through an `x`-face equals the `x`-momentum
/// flux through a `y`-face: both are `h u v`, for every state whose
/// discharges are finite.
pub proof fn lemma_cross_momentum_is_symmetric<T: Real>(u: Conserved2DG<T>)
    requires
        u.hu.is_finite_spec(),
        u.hv.is_finite_spec(),
    ensures
        FluxXG::<T>::spec_from_state(u).y_momentum == FluxYG::<T>::spec_from_state(u).x_momentum,
{
    T::lemma_mul_commutative(u.hu, u.hv);
}

/// A state whose depth's value is greater than zero carries the flux of
/// its own depth `h` (the clamp `max(h, 0)` leaves it unchanged):
/// `F_x = (hu, hu·hu/h + h·h·(½g), hu·hv/h)` and
/// `F_y = (hv, hv·hu/h, hv·hv/h + h·h·(½g))`.
pub proof fn lemma_positive_depth_flux<T: Real>(u: Conserved2DG<T>)
    requires
        u.h.value_gt_spec(T::zero_spec()),
    ensures
        FluxXG::<T>::spec_from_state(u) == (FluxXG {
            mass: u.hu,
            x_momentum: u.hu.mul_spec(u.hu).div_spec(u.h).add_spec(pressure(u.h)),
            y_momentum: u.hu.mul_spec(u.hv).div_spec(u.h),
        }),
        FluxYG::<T>::spec_from_state(u) == (FluxYG {
            mass: u.hv,
            x_momentum: u.hv.mul_spec(u.hu).div_spec(u.h),
            y_momentum: u.hv.mul_spec(u.hv).div_spec(u.h).add_spec(pressure(u.h)),
        }),
{
    T::lemma_max_zero_of_positive(u.h);
}

/// A state whose depth's value is not greater than zero (a dry, a
/// negative or a NaN depth) carries no flux in either direction.
pub proof fn lemma_nonpositive_depth_has_zero_flux<T: Real>(u: Conserved2DG<T>)
    requires
        !u.h.value_gt_spec(T::zero_spec()),
    ensures
        FluxXG::<T>::spec_from_state(u) == FluxXG::<T>::spec_zero(),
        FluxYG::<T>::spec_from_state(u) == FluxYG::<T>::spec_zero(),
{
    T::lemma_max_zero_of_nonpositive(u.h);
}

/// The dry cell carries no flux in either direction.
pub proof fn lemma_dry_cell_has_zero_flux<T: Real>()
    ensures
        FluxXG::<T>::spec_from_state(Conserved2DG::<T>::spec_dry()) == FluxXG::<T>::spec_zero(),
        FluxYG::<T>::spec_from_state(Conserved2DG::<T>::spec_dry()) == FluxYG::<T>::spec_zero(),
{
    T::lemma_zero_value();
    lemma_nonpositive_depth_has_zero_flux(Conserved2DG::<T>::spec_dry());
}

/// The flux formulas. The zero flux is zero in every component. With
/// `h⁺ = max(h, 0)`, a state whose `h⁺` has value zero carries no flux;
/// any other carries
/// `F_x = (hu, hu·hu/h⁺ + h⁺·h⁺·(½g), hu·hv/h⁺)` and
/// `F_y = (hv, hv·hu/h⁺, hv·hv/h⁺ + h⁺·h⁺·(½g))`.
pub proof fn lemma_flux_formulas<T: Real>(u: Conserved2DG<T>)
    ensures
        FluxXG::<T>::spec_zero() == (FluxXG {
            mass: T::zero_spec(),
            x_momentum: T::zero_spec(),
            y_momentum: T::zero_spec(),
        }),
        FluxYG::<T>::spec_zero() == (FluxYG {
            mass: T::zero_spec(),
            x_momentum: T::zero_spec(),
            y_momentum: T::zero_spec(),
        }),
        ({
            let hp = u.h.max_spec(T::zero_spec());
            let p = hp.mul_spec(hp).mul_spec(T::half_spec().mul_spec(T::gravity_spec()));
            &&& hp.value_is_zero_spec() ==> FluxXG::<T>::spec_from_state(u) == (FluxXG {
                mass: T::zero_spec(),
                x_momentum: T::zero_spec(),
                y_momentum: T::zero_spec(),
            })
            &&& hp.value_is_zero_spec() ==> FluxYG::<T>::spec_from_state(u) == (FluxYG {
                mass: T::zero_spec(),
                x_momentum: T::zero_spec(),
                y_momentum: T::zero_spec(),
            })
            &&& !hp.value_is_zero_spec() ==> FluxXG::<T>::spec_from_state(u) == (FluxXG {
                mass: u.hu,
                x_momentum: u.hu.mul_spec(u.hu).div_spec(hp).add_spec(p),
                y_momentum: u.hu.mul_spec(u.hv).div_spec(hp),
            })
            &&& !hp.value_is_zero_spec() ==> FluxYG::<T>::spec_from_state(u) == (FluxYG {
                mass: u.hv,
                x_momentum: u.hv.mul_spec(u.hu).div_spec(hp),
                y_momentum: u.hv.mul_spec(u.hv).div_spec(hp).add_spec(p),
            })
        }),
{
}

} // verus!
