//! Face-level building blocks of the finite-volume update: the
//! hydrostatic reconstruction of the two states at a face, the
//! two-sided well-balanced face fluxes, the face bed elevation rule, and
//! the wet/dry front buffer test.
//!
//! A well-balanced face flux is assembled in three steps:
//! [`hydrostatic_reconstruction`] gives the two reconstructed states, an
//! approximate Riemann solver gives the numerical flux between them, and
//! [`well_balanced_x_flux`] (or [`well_balanced_y_flux`]) adds each
//! side's hydrostatic-pressure correction to it.
//!
//! Grids of cell flags are row-major: cell `(i, j)` of an
//! `n_rows × n_cols` grid is entry `i * n_cols + j`.
use vstd::prelude::*;

use crate::flux::{FluxXG, FluxYG};
use crate::scalar::Real;
use crate::state::Conserved2DG;

verus! {

/// Numerical fluxes at a single `x`-face in the well-balanced two-sided
/// formulation. `minus` is consumed by the cell on the left of the face
/// (lower column index), `plus` by the cell on the right. They share
/// `mass` and `y_momentum` and differ in `x_momentum` by the
/// hydrostatic-pressure correction.
#[derive(Debug, Clone, Copy)]
pub struct FaceFluxXG<T> {
    /// Flux seen by the cell on the left of the face.
    pub minus: FluxXG<T>,
    /// Flux seen by the cell on the right of the face.
    pub plus: FluxXG<T>,
}

/// Numerical fluxes at a single `y`-face. `minus` is consumed by the
/// cell above the face (lower row index), `plus` by the cell below.
#[derive(Debug, Clone, Copy)]
pub struct FaceFluxYG<T> {
    /// Flux seen by the cell above the face.
    pub minus: FluxYG<T>,
    /// Flux seen by the cell below the face.
    pub plus: FluxYG<T>,
}

impl<T: Real> FaceFluxXG<T> {
    /// Zero face flux on both sides: the flux of a dry-dry interior face.
    pub fn zero() -> (r: Self)
        ensures
            r.minus == FluxXG::<T>::spec_zero(),
            r.plus == FluxXG::<T>::spec_zero(),
    {
        FaceFluxXG { minus: FluxXG::zero(), plus: FluxXG::zero() }
    }
}

impl<T: Real> FaceFluxYG<T> {
    /// Zero face flux on both sides: the flux of a dry-dry interior face.
    pub fn zero() -> (r: Self)
        ensures
            r.minus == FluxYG::<T>::spec_zero(),
            r.plus == FluxYG::<T>::spec_zero(),
    {
        FaceFluxYG { minus: FluxYG::zero(), plus: FluxYG::zero() }
    }
}

/// Reconstructed depth at a face of bed elevation `z_face` for a cell of
/// depth `h` on a bed at `z`: `max(h + z - z_face, 0)`.
pub open spec fn spec_star_depth<T: Real>(h: T, z: T, z_face: T) -> T {
    h.add_spec(z).sub_spec(z_face).max_spec(T::zero_spec())
}

/// Velocities `(hu / h, hv / h)` of a state whose depth's value exceeds
/// `vel_cutoff`; zero velocities for a thinner film, whose discharge is
/// either zero or a residual that must not enter a Riemann problem.
pub open spec fn spec_face_velocity<T: Real>(u: Conserved2DG<T>, vel_cutoff: T) -> (T, T) {
    if u.h.value_gt_spec(vel_cutoff) {
        (u.hu.div_spec(u.h), u.hv.div_spec(u.h))
    } else {
        (T::zero_spec(), T::zero_spec())
    }
}

/// The state `u` of a cell on a bed at `z`, reconstructed at a face of
/// bed elevation `z_face`: the reconstructed depth, carrying the cell's
/// velocities.
pub open spec fn spec_reconstruct<T: Real>(
    u: Conserved2DG<T>,
    z: T,
    z_face: T,
    vel_cutoff: T,
) -> Conserved2DG<T> {
    let h_star = spec_star_depth(u.h, z, z_face);
    let (vx, vy) = spec_face_velocity(u, vel_cutoff);
    Conserved2DG { h: h_star, hu: h_star.mul_spec(vx), hv: h_star.mul_spec(vy) }
}

/// Hydrostatic-pressure correction of one side of a face: the pressure
/// of the cell's depth `h` minus that of its reconstructed depth
/// `h_star`, `(h² - h*²) · (½ · g)`.
pub open spec fn spec_pressure_correction<T: Real>(h: T, h_star: T) -> T {
    h.mul_spec(h).sub_spec(h_star.mul_spec(h_star)).mul_spec(
        T::half_spec().mul_spec(T::gravity_spec()),
    )
}

/// The velocities of `u` entering a face's Riemann problem.
fn face_velocity<T: Real>(u: Conserved2DG<T>, vel_cutoff: T) -> (r: (T, T))
    ensures
        r == spec_face_velocity(u, vel_cutoff),
{
    if u.h.value_gt(&vel_cutoff) {
        (u.hu.div(u.h), u.hv.div(u.h))
    } else {
        (T::zero(), T::zero())
    }
}

/// Reconstruction of `u` (on a bed at `z`) at a face of bed elevation
/// `z_face`.
fn reconstruct<T: Real>(u: Conserved2DG<T>, z: T, z_face: T, vel_cutoff: T) -> (r: Conserved2DG<
    T,
>)
    ensures
        r == spec_reconstruct(u, z, z_face, vel_cutoff),
{
    let h_star = u.h.add(z).sub(z_face).max(T::zero());
    let (vx, vy) = face_velocity(u, vel_cutoff);
    Conserved2DG::new_generic(h_star, h_star.mul(vx), h_star.mul(vy))
}

/// Audusse hydrostatic reconstruction at a face between `left` (on a bed
/// at `z_left`) and `right` (on a bed at `z_right`).
///
/// The face's bed is `z* = max(z_left, z_right)`; each side's depth is
/// cut to the water above it, `h* = max(h + z - z*, 0)`, and keeps the
/// cell's velocities, which are taken as zero for a film no deeper than
/// `vel_cutoff`. Where a bank stands above the water surface of the
/// other side, that side's reconstructed depth is cut to zero, so the
/// Riemann problem between the two reconstructed states sees a wall.
pub fn hydrostatic_reconstruction<T: Real>(
    left: Conserved2DG<T>,
    z_left: T,
    right: Conserved2DG<T>,
    z_right: T,
    vel_cutoff: T,
) -> (r: (Conserved2DG<T>, Conserved2DG<T>))
    ensures
        r.0 == spec_reconstruct(left, z_left, z_left.max_spec(z_right), vel_cutoff),
        r.1 == spec_reconstruct(right, z_right, z_left.max_spec(z_right), vel_cutoff),
{
    let z_face = z_left.max(z_right);
    (reconstruct(left, z_left, z_face, vel_cutoff), reconstruct(right, z_right, z_face, vel_cutoff))
}

/// Hydrostatic-pressure correction `(h² - h*²) · (½ · g)`.
fn pressure_correction<T: Real>(h: T, h_star: T) -> (r: T)
    ensures
        r == spec_pressure_correction(h, h_star),
{
    h.mul(h).sub(h_star.mul(h_star)).mul(T::half().mul(T::gravity()))
}

/// Two-sided well-balanced flux at an `x`-face, from the numerical flux
/// `f` between the reconstructed states `recon_left` and `recon_right`
/// of the cells `left` and `right`.
///
/// Both sides carry `f`'s mass and `y`-momentum fluxes; each side's
/// `x`-momentum flux is `f`'s plus that side's hydrostatic-pressure
/// correction, which balances the bed-slope source of the cell.
pub fn well_balanced_x_flux<T: Real>(
    f: FluxXG<T>,
    left: Conserved2DG<T>,
    recon_left: Conserved2DG<T>,
    right: Conserved2DG<T>,
    recon_right: Conserved2DG<T>,
) -> (r: FaceFluxXG<T>)
    ensures
        r.minus == (FluxXG {
            mass: f.mass,
            x_momentum: f.x_momentum.add_spec(spec_pressure_correction(left.h, recon_left.h)),
            y_momentum: f.y_momentum,
        }),
        r.plus == (FluxXG {
            mass: f.mass,
            x_momentum: f.x_momentum.add_spec(spec_pressure_correction(right.h, recon_right.h)),
            y_momentum: f.y_momentum,
        }),
        r.minus.mass == r.plus.mass,
        r.minus.y_momentum == r.plus.y_momentum,
{
    let corr_left = pressure_correction(left.h, recon_left.h);
    let corr_right = pressure_correction(right.h, recon_right.h);
    FaceFluxXG {
        minus: FluxXG {
            mass: f.mass,
            x_momentum: f.x_momentum.add(corr_left),
            y_momentum: f.y_momentum,
        },
        plus: FluxXG {
            mass: f.mass,
            x_momentum: f.x_momentum.add(corr_right),
            y_momentum: f.y_momentum,
        },
    }
}

/// Two-sided well-balanced flux at a `y`-face, from the numerical flux
/// `f` between the reconstructed states of the cell above (`left`,
/// lower row index) and the cell below (`right`).
///
/// Both sides carry `f`'s mass and `x`-momentum fluxes; each side's
/// `y`-momentum flux is `f`'s plus that side's hydrostatic-pressure
/// correction.
pub fn well_balanced_y_flux<T: Real>(
    f: FluxYG<T>,
    left: Conserved2DG<T>,
    recon_left: Conserved2DG<T>,
    right: Conserved2DG<T>,
    recon_right: Conserved2DG<T>,
) -> (r: FaceFluxYG<T>)
    ensures
        r.minus == (FluxYG {
            mass: f.mass,
            x_momentum: f.x_momentum,
            y_momentum: f.y_momentum.add_spec(spec_pressure_correction(left.h, recon_left.h)),
        }),
        r.plus == (FluxYG {
            mass: f.mass,
            x_momentum: f.x_momentum,
            y_momentum: f.y_momentum.add_spec(spec_pressure_correction(right.h, recon_right.h)),
        }),
        r.minus.mass == r.plus.mass,
        r.minus.x_momentum == r.plus.x_momentum,
{
    let corr_left = pressure_correction(left.h, recon_left.h);
    let corr_right = pressure_correction(right.h, recon_right.h);
    FaceFluxYG {
        minus: FluxYG {
            mass: f.mass,
            x_momentum: f.x_momentum,
            y_momentum: f.y_momentum.add(corr_left),
        },
        plus: FluxYG {
            mass: f.mass,
            x_momentum: f.x_momentum,
            y_momentum: f.y_momentum.add(corr_right),
        },
    }
}

/// The bed elevation of an interior face between a cell of bed `z_l`
/// and one of bed `z_r`.
pub open spec fn spec_interior_z_face<T: Real>(l_dry: bool, z_l: T, r_dry: bool, z_r: T) -> T {
    if l_dry != r_dry {
        z_l.max_spec(z_r)
    } else {
        z_l.add_spec(z_r).mul_spec(T::half_spec())
    }
}

/// Face bed elevation at an interior face from the two adjacent cells'
/// wet/dry flags and beds.
///
/// - Both sides wet, or both dry: the midpoint `½(z_L + z_R)`, which
///   removes the steady-state bias of a free-surface reconstruction on
///   a sloped bed.
/// - Exactly one side wet (shoreline or wetting front): `max(z_L, z_R)`,
///   so that a dry bank standing above the wet surface acts as a wall
///   and flux and bed source balance exactly at shorelines.
pub fn interior_z_face<T: Real>(l_dry: bool, z_l: T, r_dry: bool, z_r: T) -> (r: T)
    ensures
        r == spec_interior_z_face(l_dry, z_l, r_dry, z_r),
{
    if l_dry != r_dry {
        z_l.max(z_r)
    } else {
        z_l.add(z_r).mul(T::half())
    }
}

/// Whether cell `(i, j)` of the row-major grid `dry` with `n_cols`
/// columns is flagged.
pub open spec fn cell_flag(dry: Seq<bool>, n_cols: int, i: int, j: int) -> bool {
    dry[i * n_cols + j]
}

/// Some cell `(i, jj)` with `|jj - j| <= 2` inside the grid is flagged.
pub open spec fn spec_any_neighbor_dry_x(dry: Seq<bool>, n_cols: int, i: int, j: int) -> bool {
    exists|jj: int| j - 2 <= jj <= j + 2 && 0 <= jj < n_cols && #[trigger] cell_flag(dry, n_cols, i, jj)
}

/// Some cell `(ii, j)` with `|ii - i| <= 2` inside the grid is flagged.
pub open spec fn spec_any_neighbor_dry_y(
    dry: Seq<bool>,
    n_rows: int,
    n_cols: int,
    i: int,
    j: int,
) -> bool {
    exists|ii: int| i - 2 <= ii <= i + 2 && 0 <= ii < n_rows && #[trigger] cell_flag(dry, n_cols, ii, j)
}

proof fn lemma_cell_index(n_rows: int, n_cols: int, i: int, j: int)
    requires
        0 <= i < n_rows,
        0 <= j < n_cols,
    ensures
        0 <= i * n_cols + j < n_rows * n_cols,
        i * n_cols + n_cols <= n_rows * n_cols,
{
    assert(0 <= i * n_cols) by (nonlinear_arith)
        requires
            0 <= i,
            0 <= n_cols,
    ;
    assert((i + 1) * n_cols <= n_rows * n_cols) by (nonlinear_arith)
        requires
            i + 1 <= n_rows,
            0 <= n_cols,
    ;
    assert((i + 1) * n_cols == i * n_cols + n_cols) by (nonlinear_arith);
}

/// Whether any cell within distance 2 of `(i, j)` along the `x` axis is
/// dry. Used to drop slopes to zero in a 2-cell buffer around wet/dry
/// fronts, so that a reconstruction from a wet cell cannot extrapolate
/// over a nearby dry cell.
pub fn any_neighbor_dry_x(dry: &[bool], n_rows: usize, n_cols: usize, i: usize, j: usize) -> (r:
    bool)
    requires
        dry.len() == n_rows * n_cols,
        i < n_rows,
        j < n_cols,
    ensures
        r == spec_any_neighbor_dry_x(dry@, n_cols as int, i as int, j as int),
{
    let j_lo = if j >= 2 {
        j - 2
    } else {
        0
    };
    let j_hi = if n_cols - 1 - j > 2 {
        j + 2
    } else {
        n_cols - 1
    };
    let mut jj = j_lo;
    proof {
        lemma_cell_index(n_rows as int, n_cols as int, i as int, 0);
    }
    let row = i * n_cols;
    while jj <= j_hi
        invariant
            j_lo <= jj <= j_hi + 1,
            j_hi < n_cols,
            row == i * n_cols,
            row + n_cols <= dry.len(),
            j_lo == (if j >= 2 { j - 2 } else { 0 }),
            j_hi == (if j + 2 < n_cols - 1 { j + 2 } else { n_cols - 1 }),
            forall|k: int| j_lo <= k < jj ==> !#[trigger] cell_flag(dry@, n_cols as int, i as int, k),
        decreases j_hi + 1 - jj,
    {
        if dry[row + jj] {
            assert(cell_flag(dry@, n_cols as int, i as int, jj as int));
            return true;
        }
        jj = jj + 1;
    }
    false
}

/// Whether any cell within distance 2 of `(i, j)` along the `y` axis is
/// dry. See [`any_neighbor_dry_x`].
pub fn any_neighbor_dry_y(dry: &[bool], n_rows: usize, n_cols: usize, i: usize, j: usize) -> (r:
    bool)
    requires
        dry.len() == n_rows * n_cols,
        i < n_rows,
        j < n_cols,
    ensures
        r == spec_any_neighbor_dry_y(dry@, n_rows as int, n_cols as int, i as int, j as int),
{
    let i_lo = if i >= 2 {
        i - 2
    } else {
        0
    };
    let i_hi = if n_rows - 1 - i > 2 {
        i + 2
    } else {
        n_rows - 1
    };
    let mut ii = i_lo;
    while ii <= i_hi
        invariant
            i_lo <= ii <= i_hi + 1,
            i_hi < n_rows,
            j < n_cols,
            dry.len() == n_rows * n_cols,
            i_lo == (if i >= 2 { i - 2 } else { 0 }),
            i_hi == (if i + 2 < n_rows - 1 { i + 2 } else { n_rows - 1 }),
            forall|k: int| i_lo <= k < ii ==> !#[trigger] cell_flag(dry@, n_cols as int, k, j as int),
        decreases i_hi + 1 - ii,
    {
        proof {
            lemma_cell_index(n_rows as int, n_cols as int, ii as int, j as int);
        }
        if dry[ii * n_cols + j] {
            assert(cell_flag(dry@, n_cols as int, ii as int, j as int));
            return true;
        }
        ii = ii + 1;
    }
    false
}


/// The face bed rule: at a shoreline (exactly one side dry, whichever
/// it is) the face bed is the higher of the two beds,
/// `max(z_L, z_R)`; between two wet or two dry cells it is the
/// midpoint `(z_L + z_R) · ½`.
pub proof fn lemma_interior_face_bed<T: Real>(l_dry: bool, z_l: T, r_dry: bool, z_r: T)
    ensures
        l_dry != r_dry ==> spec_interior_z_face(l_dry, z_l, r_dry, z_r) == z_l.max_spec(z_r),
        l_dry == r_dry ==> spec_interior_z_face(l_dry, z_l, r_dry, z_r) == z_l.add_spec(
            z_r,
        ).mul_spec(T::half_spec()),
        spec_interior_z_face(true, z_l, false, z_r) == spec_interior_z_face(false, z_l, true, z_r),
        spec_interior_z_face(true, z_l, true, z_r) == spec_interior_z_face(false, z_l, false, z_r),
{
}

/// The hydrostatic-pressure correction of a side is
/// `(h·h - h*·h*) · (½ · g)` for every depth `h` and reconstructed depth
/// `h*`, a zero `h*` (a side cut off by a bank) included.
pub proof fn lemma_pressure_correction_formula<T: Real>(h: T, h_star: T)
    ensures
        spec_pressure_correction(h, h_star) == h.mul_spec(h).sub_spec(h_star.mul_spec(h_star)).mul_spec(
            T::half_spec().mul_spec(T::gravity_spec()),
        ),
        spec_pressure_correction(h, T::zero_spec()) == h.mul_spec(h).sub_spec(
            T::zero_spec().mul_spec(T::zero_spec()),
        ).mul_spec(T::half_spec().mul_spec(T::gravity_spec())),
{
}

/// The correction depends on the two depths only through their squares:
/// reconstructed depths with equal squares (`h*` and `-h*`, or a zero
/// and a negative zero) give the same correction, and so do cell depths
/// with equal squares.
pub proof fn lemma_pressure_correction_depends_on_squares<T: Real>(h1: T, h2: T, s1: T, s2: T)
    requires
        h1.mul_spec(h1) == h2.mul_spec(h2),
        s1.mul_spec(s1) == s2.mul_spec(s2),
    ensures
        spec_pressure_correction(h1, s1) == spec_pressure_correction(h2, s2),
{
}

/// The velocities entering the Riemann problem: a cell whose depth's
/// value exceeds the cutoff contributes `(hu / h, hv / h)`, whatever the
/// values of `hu` and `hv`; a thinner one contributes zero velocities.
/// Which of the two holds depends on the depth alone.
pub proof fn lemma_face_velocity<T: Real>(u: Conserved2DG<T>, w: Conserved2DG<T>, vel_cutoff: T)
    ensures
        u.h.value_gt_spec(vel_cutoff) ==> spec_face_velocity(u, vel_cutoff) == (
            u.hu.div_spec(u.h),
            u.hv.div_spec(u.h),
        ),
        !u.h.value_gt_spec(vel_cutoff) ==> spec_face_velocity(u, vel_cutoff) == (
            T::zero_spec(),
            T::zero_spec(),
        ),
        w.h == u.h && u.h.value_gt_spec(vel_cutoff) ==> spec_face_velocity(w, vel_cutoff) == (
            w.hu.div_spec(u.h),
            w.hv.div_spec(u.h),
        ),
{
}

/// The reconstruction of a cell at a face: its depth is
/// `max(h + z - z_face, 0)`, equal to `h + z - z_face` where that has a
/// value greater than zero and of value zero where it has not (a bank
/// above the water surface); its discharges are that depth times the
/// cell's velocities `hu / h` and `hv / h` when the cell's depth exceeds
/// the cutoff, and that depth times zero otherwise.
pub proof fn lemma_reconstruction<T: Real>(u: Conserved2DG<T>, z: T, z_face: T, vel_cutoff: T)
    ensures
        ({
            let r = spec_reconstruct(u, z, z_face, vel_cutoff);
            let d = u.h.add_spec(z).sub_spec(z_face);
            &&& r.h == d.max_spec(T::zero_spec())
            &&& d.value_gt_spec(T::zero_spec()) ==> r.h == d
            &&& !d.value_gt_spec(T::zero_spec()) ==> r.h.value_is_zero_spec()
            &&& u.h.value_gt_spec(vel_cutoff) ==> r.hu == r.h.mul_spec(u.hu.div_spec(u.h))
                && r.hv == r.h.mul_spec(u.hv.div_spec(u.h))
            &&& !u.h.value_gt_spec(vel_cutoff) ==> r.hu == r.h.mul_spec(T::zero_spec())
                && r.hv == r.h.mul_spec(T::zero_spec())
        }),
{
    let d = u.h.add_spec(z).sub_spec(z_face);
    if d.value_gt_spec(T::zero_spec()) {
        T::lemma_max_zero_of_positive(d);
    } else {
        T::lemma_max_zero_of_nonpositive(d);
    }
}

/// The face of a hydrostatic reconstruction has the higher of the two
/// beds, and each side is reconstructed against that same face bed.
pub proof fn lemma_reconstruction_face_bed<T: Real>(
    left: Conserved2DG<T>,
    z_left: T,
    right: Conserved2DG<T>,
    z_right: T,
    vel_cutoff: T,
)
    ensures
        spec_reconstruct(left, z_left, z_left.max_spec(z_right), vel_cutoff).h == left.h.add_spec(
            z_left,
        ).sub_spec(z_left.max_spec(z_right)).max_spec(T::zero_spec()),
        spec_reconstruct(right, z_right, z_left.max_spec(z_right), vel_cutoff).h
            == right.h.add_spec(z_right).sub_spec(z_left.max_spec(z_right)).max_spec(
            T::zero_spec(),
        ),
{
}

/// The wet/dry buffer along `x`: cell `(i, j)` is buffered exactly when
/// some column `jj` of row `i` inside the grid, on either side of `j`
/// and at most two columns away, is flagged.
pub proof fn lemma_dry_buffer_x(dry: Seq<bool>, n_cols: int, i: int, j: int, jj: int)
    ensures
        0 <= jj < n_cols && j - 2 <= jj <= j + 2 && dry[i * n_cols + jj]
            ==> spec_any_neighbor_dry_x(dry, n_cols, i, j),
        spec_any_neighbor_dry_x(dry, n_cols, i, j) ==> exists|k: int|
            0 <= k < n_cols && j - 2 <= k <= j + 2 && #[trigger] dry[i * n_cols + k],
{
    if 0 <= jj < n_cols && j - 2 <= jj <= j + 2 && dry[i * n_cols + jj] {
        assert(cell_flag(dry, n_cols, i, jj));
    }
    if spec_any_neighbor_dry_x(dry, n_cols, i, j) {
        let k = choose|k: int|
            j - 2 <= k <= j + 2 && 0 <= k < n_cols && #[trigger] cell_flag(dry, n_cols, i, k);
        assert(dry[i * n_cols + k]);
    }
}

/// The wet/dry buffer along `y`: cell `(i, j)` is buffered exactly when
/// some row `ii` of column `j` inside the grid, above or below `i` and
/// at most two rows away, is flagged.
pub proof fn lemma_dry_buffer_y(dry: Seq<bool>, n_rows: int, n_cols: int, i: int, j: int, ii: int)
    ensures
        0 <= ii < n_rows && i - 2 <= ii <= i + 2 && dry[ii * n_cols + j]
            ==> spec_any_neighbor_dry_y(dry, n_rows, n_cols, i, j),
        spec_any_neighbor_dry_y(dry, n_rows, n_cols, i, j) ==> exists|k: int|
            0 <= k < n_rows && i - 2 <= k <= i + 2 && #[trigger] dry[k * n_cols + j],
{
    if 0 <= ii < n_rows && i - 2 <= ii <= i + 2 && dry[ii * n_cols + j] {
        assert(cell_flag(dry, n_cols, ii, j));
    }
    if spec_any_neighbor_dry_y(dry, n_rows, n_cols, i, j) {
        let k = choose|k: int|
            i - 2 <= k <= i + 2 && 0 <= k < n_rows && #[trigger] cell_flag(dry, n_cols, k, j);
        assert(dry[k * n_cols + j]);
    }
}

} // verus!
