//! Cell-state, flux, ghost-cell and face kernels evaluated with a plain
//! `f64` scalar and with a forward-mode dual number.

use hydroflux_solver_2d::face::{
    FaceFluxXG, FaceFluxYG, hydrostatic_reconstruction, interior_z_face, well_balanced_x_flux,
    well_balanced_y_flux,
};
use hydroflux_solver_2d::{
    Boundaries2D, Boundary, Conserved2DG, FluxXG, FluxYG, Primitive2DG, Real, Side, ghost_state,
};

const GRAVITY: f64 = 9.81;

/// Plain double-precision scalar.
#[derive(Debug, Clone, Copy, PartialEq)]
struct F(f64);

impl Real for F {
    fn zero_spec() -> Self { unreachable!() }
    fn gravity_spec() -> Self { unreachable!() }
    fn half_spec() -> Self { unreachable!() }
    fn add_spec(self, _rhs: Self) -> Self { unreachable!() }
    fn sub_spec(self, _rhs: Self) -> Self { unreachable!() }
    fn mul_spec(self, _rhs: Self) -> Self { unreachable!() }
    fn div_spec(self, _rhs: Self) -> Self { unreachable!() }
    fn neg_spec(self) -> Self { unreachable!() }
    fn max_spec(self, _rhs: Self) -> Self { unreachable!() }
    fn sqrt_spec(self) -> Self { unreachable!() }
    fn value_is_zero_spec(self) -> bool { unreachable!() }
    fn value_gt_spec(self, _rhs: Self) -> bool { unreachable!() }
    fn is_finite_spec(self) -> bool { unreachable!() }
    fn lemma_zero_value() {}
    fn lemma_max_zero_of_positive(_a: Self) {}
    fn lemma_max_zero_of_nonpositive(_a: Self) {}
    fn lemma_neg_involution(_a: Self) {}
    fn lemma_mul_commutative(_a: Self, _b: Self) {}
    fn zero() -> Self { F(0.0) }
    fn gravity() -> Self { F(GRAVITY) }
    fn half() -> Self { F(0.5) }
    fn add(self, rhs: Self) -> Self { F(self.0 + rhs.0) }
    fn sub(self, rhs: Self) -> Self { F(self.0 - rhs.0) }
    fn mul(self, rhs: Self) -> Self { F(self.0 * rhs.0) }
    fn div(self, rhs: Self) -> Self { F(self.0 / rhs.0) }
    fn neg(self) -> Self { F(-self.0) }
    fn max(self, rhs: Self) -> Self { F(self.0.max(rhs.0)) }
    fn sqrt(self) -> Self { F(self.0.sqrt()) }
    fn value_is_zero(&self) -> bool { self.0 == 0.0 }
    fn value_gt(&self, rhs: &Self) -> bool { self.0 > rhs.0 }
}

/// Forward-mode dual number `val + dval·ε`.
#[derive(Debug, Clone, Copy, PartialEq)]
struct Dual {
    val: f64,
    dval: f64,
}

impl Dual {
    fn variable(val: f64) -> Self {
        Dual { val, dval: 1.0 }
    }
    fn constant(val: f64) -> Self {
        Dual { val, dval: 0.0 }
    }
}

impl Real for Dual {
    fn zero_spec() -> Self { unreachable!() }
    fn gravity_spec() -> Self { unreachable!() }
    fn half_spec() -> Self { unreachable!() }
    fn add_spec(self, _rhs: Self) -> Self { unreachable!() }
    fn sub_spec(self, _rhs: Self) -> Self { unreachable!() }
    fn mul_spec(self, _rhs: Self) -> Self { unreachable!() }
    fn div_spec(self, _rhs: Self) -> Self { unreachable!() }
    fn neg_spec(self) -> Self { unreachable!() }
    fn max_spec(self, _rhs: Self) -> Self { unreachable!() }
    fn sqrt_spec(self) -> Self { unreachable!() }
    fn value_is_zero_spec(self) -> bool { unreachable!() }
    fn value_gt_spec(self, _rhs: Self) -> bool { unreachable!() }
    fn is_finite_spec(self) -> bool { unreachable!() }
    fn lemma_zero_value() {}
    fn lemma_max_zero_of_positive(_a: Self) {}
    fn lemma_max_zero_of_nonpositive(_a: Self) {}
    fn lemma_neg_involution(_a: Self) {}
    fn lemma_mul_commutative(_a: Self, _b: Self) {}
    fn zero() -> Self { Dual::constant(0.0) }
    fn gravity() -> Self { Dual::constant(GRAVITY) }
    fn half() -> Self { Dual::constant(0.5) }
    fn add(self, rhs: Self) -> Self {
        Dual { val: self.val + rhs.val, dval: self.dval + rhs.dval }
    }
    fn sub(self, rhs: Self) -> Self {
        Dual { val: self.val - rhs.val, dval: self.dval - rhs.dval }
    }
    fn mul(self, rhs: Self) -> Self {
        Dual { val: self.val * rhs.val, dval: self.dval * rhs.val + self.val * rhs.dval }
    }
    fn div(self, rhs: Self) -> Self {
        Dual {
            val: self.val / rhs.val,
            dval: (self.dval * rhs.val - self.val * rhs.dval) / (rhs.val * rhs.val),
        }
    }
    fn neg(self) -> Self {
        Dual { val: -self.val, dval: -self.dval }
    }
    fn max(self, rhs: Self) -> Self {
        if self.val >= rhs.val { self } else { rhs }
    }
    fn sqrt(self) -> Self {
        let r = self.val.sqrt();
        Dual { val: r, dval: if r == 0.0 { 0.0 } else { self.dval / (2.0 * r) } }
    }
    fn value_is_zero(&self) -> bool { self.val == 0.0 }
    fn value_gt(&self, rhs: &Self) -> bool { self.val > rhs.val }
}

fn c(h: f64, hu: f64, hv: f64) -> Conserved2DG<F> {
    Conserved2DG::new_generic(F(h), F(hu), F(hv))
}

fn close(a: f64, b: f64, eps: f64) -> bool {
    (a - b).abs() <= eps
}

// ----- state -----

#[test]
fn primitive_conserved_roundtrip() {
    let p = Primitive2DG::new_generic(F(1.5), F(2.3), F(-0.7));
    let cs = p.to_conserved();
    let p2 = cs.to_primitive(F(1e-9));
    assert!(close(p.h.0, p2.h.0, 1e-12));
    assert!(close(p.u.0, p2.u.0, 1e-12));
    assert!(close(p.v.0, p2.v.0, 1e-12));
}

#[test]
fn dry_cell_has_zero_velocity_components() {
    let p = c(1e-10, 1.0, -1.0).to_primitive(F(1e-9));
    assert_eq!(p.u.0, 0.0);
    assert_eq!(p.v.0, 0.0);
}

#[test]
fn celerity_matches_sqrt_g_h() {
    assert!(close(c(4.0, 0.0, 0.0).celerity().0, (GRAVITY * 4.0).sqrt(), 1e-12));
}

#[test]
fn speed_is_velocity_magnitude() {
    assert!(close(c(1.0, 3.0, 4.0).speed(F(1e-9)).0, 5.0, 1e-12));
}

#[test]
fn dry_cell_has_zero_speed() {
    assert_eq!(c(1e-10, 1.0, 1.0).speed(F(1e-9)).0, 0.0);
}

#[test]
fn celerity_with_dual_carries_derivative() {
    let h = Dual::variable(4.0);
    let cell = Conserved2DG::<Dual>::new_generic(h, Dual::constant(0.0), Dual::constant(0.0));
    let cel = cell.celerity();
    assert!(close(cel.val, (GRAVITY * 4.0).sqrt(), 1e-12));
    let expected = 0.5 * (GRAVITY / 4.0).sqrt();
    assert!(close(cel.dval, expected, 1e-12));
}

#[test]
fn speed_with_dual_carries_derivative_through_quotient() {
    let cell = Conserved2DG::<Dual>::new_generic(
        Dual::variable(2.0),
        Dual::constant(6.0),
        Dual::constant(8.0),
    );
    let s = cell.speed(Dual::constant(1e-9));
    assert!(close(s.val, 10.0 / 2.0, 1e-12));
    assert!(close(s.dval, -10.0 / (2.0 * 2.0), 1e-12));
}

#[test]
fn f64_and_dual_value_match_on_the_same_inputs() {
    let f = c(1.5, 0.6, -0.3);
    let d = Conserved2DG::<Dual>::new_generic(
        Dual::constant(1.5),
        Dual::constant(0.6),
        Dual::constant(-0.3),
    );
    assert_eq!(f.celerity().0, d.celerity().val);
    assert_eq!(f.speed(F(1e-9)).0, d.speed(Dual::constant(1e-9)).val);
}

#[test]
fn dry_below_tol_branch_uses_value_not_dual() {
    let h = Dual { val: 1e-10, dval: 1.0 };
    let cell = Conserved2DG::<Dual>::new_generic(h, Dual::constant(1.0), Dual::constant(-1.0));
    let p = cell.to_primitive(Dual::constant(1e-9));
    assert_eq!(p.u.val, 0.0);
    assert_eq!(p.u.dval, 0.0);
    assert_eq!(p.v.val, 0.0);
    assert_eq!(p.v.dval, 0.0);
}

#[test]
fn dry_constructor_is_all_zero() {
    let d = Conserved2DG::<F>::dry();
    assert_eq!(d, c(0.0, 0.0, 0.0));
}

#[test]
fn to_conserved_multiplies_velocities_by_depth() {
    let p = Primitive2DG::new_generic(F(2.0), F(1.5), F(-0.25));
    assert_eq!(p.to_conserved(), c(2.0, 3.0, -0.5));
}

// ----- flux -----

#[test]
fn fx_zero_velocity_gives_hydrostatic_x_momentum() {
    let h = 2.0;
    let f = FluxXG::from_state(c(h, 0.0, 0.0));
    assert!(close(f.mass.0, 0.0, 1e-12));
    assert!(close(f.x_momentum.0, 0.5 * GRAVITY * h * h, 1e-12));
    assert!(close(f.y_momentum.0, 0.0, 1e-12));
}

#[test]
fn fy_zero_velocity_gives_hydrostatic_y_momentum() {
    let h = 2.0;
    let f = FluxYG::from_state(c(h, 0.0, 0.0));
    assert!(close(f.mass.0, 0.0, 1e-12));
    assert!(close(f.x_momentum.0, 0.0, 1e-12));
    assert!(close(f.y_momentum.0, 0.5 * GRAVITY * h * h, 1e-12));
}

#[test]
fn cross_momentum_appears_only_when_both_velocities_nonzero() {
    let (h, u, v) = (1.0, 1.5, 2.0);
    let state = c(h, h * u, h * v);
    let fx = FluxXG::from_state(state);
    let fy = FluxYG::from_state(state);
    assert!(close(fx.y_momentum.0, h * u * v, 1e-12));
    assert!(close(fy.x_momentum.0, h * u * v, 1e-12));
    assert!(close(fx.y_momentum.0, fy.x_momentum.0, 1e-12));
}

#[test]
fn fx_matches_textbook_formula() {
    let (h, u, v) = (2.0, 1.5, -0.7);
    let f = FluxXG::from_state(c(h, h * u, h * v));
    assert!(close(f.mass.0, h * u, 1e-12));
    assert!(close(f.x_momentum.0, h * u * u + 0.5 * GRAVITY * h * h, 1e-12));
    assert!(close(f.y_momentum.0, h * u * v, 1e-12));
}

#[test]
fn dry_cell_yields_zero_flux_in_both_directions() {
    let dry = Conserved2DG::<F>::dry();
    assert_eq!(FluxXG::from_state(dry), FluxXG::<F>::zero());
    assert_eq!(FluxYG::from_state(dry), FluxYG::<F>::zero());
}

#[test]
fn negative_depth_is_clamped_to_dry_flux() {
    assert_eq!(FluxXG::from_state(c(-0.5, 1.0, 2.0)), FluxXG::<F>::zero());
    assert_eq!(FluxYG::from_state(c(-0.5, 1.0, 2.0)), FluxYG::<F>::zero());
}

#[test]
fn fx_with_dual_seed_on_h_gives_correct_derivative() {
    let f = FluxXG::<Dual>::from_state(Conserved2DG::new_generic(
        Dual::variable(2.0),
        Dual::constant(3.0),
        Dual::constant(0.0),
    ));
    assert!(close(f.x_momentum.val, 4.5 + 2.0 * GRAVITY, 1e-12));
    assert!(close(f.x_momentum.dval, -9.0 / 4.0 + 2.0 * GRAVITY, 1e-12));
    assert_eq!(f.mass.val, 3.0);
    assert_eq!(f.mass.dval, 0.0);
}

#[test]
fn fy_with_dual_seed_on_v_gives_correct_y_momentum_derivative() {
    let f = FluxYG::<Dual>::from_state(Conserved2DG::new_generic(
        Dual::constant(2.0),
        Dual::constant(0.0),
        Dual::variable(4.0),
    ));
    assert!(close(f.y_momentum.val, 8.0 + 2.0 * GRAVITY, 1e-12));
    assert!(close(f.y_momentum.dval, 4.0, 1e-12));
}

#[test]
fn fx_dual_value_matches_f64_value_on_same_inputs() {
    let f = FluxXG::from_state(c(1.5, 0.6, -0.3));
    let d = FluxXG::<Dual>::from_state(Conserved2DG::new_generic(
        Dual::constant(1.5),
        Dual::constant(0.6),
        Dual::constant(-0.3),
    ));
    assert_eq!(f.mass.0, d.mass.val);
    assert_eq!(f.x_momentum.0, d.x_momentum.val);
    assert_eq!(f.y_momentum.0, d.y_momentum.val);
}

#[test]
fn dry_branch_under_dual_returns_zero_flux_with_zero_derivative() {
    let f = FluxXG::<Dual>::from_state(Conserved2DG::new_generic(
        Dual { val: 0.0, dval: 1.0 },
        Dual::constant(0.5),
        Dual::constant(0.5),
    ));
    assert_eq!(f.mass.val, 0.0);
    assert_eq!(f.mass.dval, 0.0);
    assert_eq!(f.x_momentum.val, 0.0);
    assert_eq!(f.x_momentum.dval, 0.0);
    assert_eq!(f.y_momentum.val, 0.0);
    assert_eq!(f.y_momentum.dval, 0.0);
}

// ----- ghost cells -----

const SIDES: [Side; 4] = [Side::North, Side::South, Side::West, Side::East];

#[test]
fn transmissive_ghost_equals_inner_on_all_sides() {
    let u = c(1.5, 0.6, -0.3);
    for side in [Side::North, Side::South, Side::West, Side::East] {
        let g = ghost_state(u, Boundary::Transmissive, side);
        assert_eq!(g, u, "transmissive must be identity at side {side:?}");
    }
}

#[test]
fn wall_on_x_face_reverses_hu_preserves_hv() {
    let u = c(1.5, 0.6, -0.3);
    let g = ghost_state(u, Boundary::Wall, Side::West);
    assert_eq!(g.h, u.h);
    assert_eq!(g.hu, u.hu.neg());
    assert_eq!(g.hv, u.hv);
}

#[test]
fn wall_on_y_face_reverses_hv_preserves_hu() {
    let u = c(1.5, 0.6, -0.3);
    let g = ghost_state(u, Boundary::Wall, Side::South);
    assert_eq!(g.h, u.h);
    assert_eq!(g.hu, u.hu);
    assert_eq!(g.hv, u.hv.neg());
}

#[test]
fn discharge_on_x_face_sets_hu_keeps_hv_zero_gradient() {
    let inner = c(0.6, 1.2, 0.4);
    let q_in = 0.8;
    let g = ghost_state(inner, Boundary::Discharge { q: F(q_in) }, Side::West);
    assert!(close(g.h.0, inner.h.0, 1e-12));
    assert!(close(g.hu.0, q_in, 1e-12));
    assert!(close(g.hv.0, inner.hv.0, 1e-12));
}

#[test]
fn discharge_on_y_face_sets_hv_keeps_hu_zero_gradient() {
    let inner = c(0.6, 1.2, 0.4);
    let q_in = 0.7;
    let g = ghost_state(inner, Boundary::Discharge { q: F(q_in) }, Side::North);
    assert!(close(g.h.0, inner.h.0, 1e-12));
    assert!(close(g.hu.0, inner.hu.0, 1e-12));
    assert!(close(g.hv.0, q_in, 1e-12));
}

#[test]
fn depth_prescribes_h_keeps_both_momenta_zero_gradient() {
    let inner = c(0.6, 1.2, 0.4);
    let h_out = 0.45;
    let g = ghost_state(inner, Boundary::Depth { h: F(h_out) }, Side::South);
    assert!(close(g.h.0, h_out, 1e-12));
    assert!(close(g.hu.0, inner.hu.0, 1e-12));
    assert!(close(g.hv.0, inner.hv.0, 1e-12));
}

#[test]
fn depth_ghost_state_is_the_same_on_every_side() {
    let inner = c(0.6, 1.2, 0.4);
    for side in SIDES {
        assert_eq!(ghost_state(inner, Boundary::Depth { h: F(0.45) }, side), c(0.45, 1.2, 0.4));
    }
}

#[test]
fn wall_applied_twice_gives_back_the_inner_cell() {
    let u = c(1.5, 0.6, -0.3);
    for side in SIDES {
        let once = ghost_state(u, Boundary::Wall, side);
        assert_eq!(ghost_state(once, Boundary::Wall, side), u);
    }
}

#[test]
fn wall_at_rest_coincides_with_transmissive_on_all_sides() {
    // -0.0 == 0.0 under f64 comparison.
    let u = c(2.0, 0.0, 0.0);
    for side in SIDES {
        assert_eq!(
            ghost_state(u, Boundary::Wall, side),
            ghost_state(u, Boundary::Transmissive, side)
        );
    }
}

#[test]
fn boundaries2d_constants_apply_uniform_kind() {
    let t = Boundaries2D::<F>::transmissive();
    let w = Boundaries2D::<F>::walls();
    assert_eq!(t.north, Boundary::Transmissive);
    assert_eq!(t.east, Boundary::Transmissive);
    assert_eq!(w.south, Boundary::Wall);
    assert_eq!(w.west, Boundary::Wall);
}

// ----- faces -----

#[test]
fn face_flux_zero_is_zero_on_both_sides() {
    let fx = FaceFluxXG::<F>::zero();
    let fy = FaceFluxYG::<F>::zero();
    assert_eq!(fx.minus, FluxXG::zero());
    assert_eq!(fx.plus, FluxXG::zero());
    assert_eq!(fy.minus, FluxYG::zero());
    assert_eq!(fy.plus, FluxYG::zero());
}

#[test]
fn interior_face_bed_is_midpoint_between_like_cells() {
    assert_eq!(interior_z_face(false, F(1.0), false, F(2.0)), F(1.5));
    assert_eq!(interior_z_face(true, F(1.0), true, F(2.0)), F(1.5));
}

#[test]
fn interior_face_bed_is_higher_bed_at_a_shoreline() {
    assert_eq!(interior_z_face(false, F(1.0), true, F(2.0)), F(2.0));
    assert_eq!(interior_z_face(true, F(3.0), false, F(2.0)), F(3.0));
}

#[test]
fn reconstruction_on_a_flat_bed_keeps_the_states() {
    let left = c(2.0, 1.0, 0.5);
    let right = c(1.0, -0.5, 0.25);
    let (rl, rr) = hydrostatic_reconstruction(left, F(0.0), right, F(0.0), F(1e-5));
    assert_eq!(rl, left);
    assert_eq!(rr, right);
}

#[test]
fn reconstruction_cuts_depth_to_the_water_above_the_higher_bed() {
    // Left: surface at 1.5 on a bed at 0; right: bed at 1, depth 1.
    let left = c(1.5, 3.0, 1.5);
    let right = c(1.0, 0.0, 0.0);
    let (rl, rr) = hydrostatic_reconstruction(left, F(0.0), right, F(1.0), F(1e-5));
    assert_eq!(rl.h, F(0.5));
    assert_eq!(rl.hu, F(1.0)); // 0.5 · (3.0 / 1.5)
    assert_eq!(rl.hv, F(0.5)); // 0.5 · (1.5 / 1.5)
    assert_eq!(rr, right);
}

#[test]
fn reconstruction_against_a_dry_bank_gives_zero_depth() {
    let left = c(0.5, 0.2, 0.0);
    let right = c(0.0, 0.0, 0.0);
    let (rl, rr) = hydrostatic_reconstruction(left, F(0.0), right, F(2.0), F(1e-5));
    assert_eq!(rl, c(0.0, 0.0, 0.0));
    assert_eq!(rr.h, F(0.0));
}

#[test]
fn reconstruction_drops_the_velocity_of_a_film() {
    let film = c(1e-6, 3.0, -2.0);
    let (rl, _) = hydrostatic_reconstruction(film, F(0.0), c(1.0, 0.0, 0.0), F(0.0), F(1e-5));
    assert_eq!(rl.h, F(1e-6));
    assert_eq!(rl.hu, F(0.0));
    assert_eq!(rl.hv, F(0.0));
}

#[test]
fn well_balanced_x_flux_adds_each_sides_pressure_correction() {
    let f = FluxXG { mass: F(0.25), x_momentum: F(1.0), y_momentum: F(-0.5) };
    let left = c(1.5, 0.0, 0.0);
    let recon_left = c(0.5, 0.0, 0.0);
    let right = c(1.0, 0.0, 0.0);
    let r = well_balanced_x_flux(f, left, recon_left, right, right);
    // (1.5² − 0.5²) · (½ · g) = 2 · 4.905
    assert_eq!(r.minus.x_momentum, F(1.0 + 2.0 * (0.5 * GRAVITY)));
    assert_eq!(r.plus.x_momentum, F(1.0));
    assert_eq!(r.minus.mass, r.plus.mass);
    assert_eq!(r.minus.mass, F(0.25));
    assert_eq!(r.minus.y_momentum, F(-0.5));
    assert_eq!(r.plus.y_momentum, F(-0.5));
}

#[test]
fn well_balanced_y_flux_adds_each_sides_pressure_correction() {
    let f = FluxYG { mass: F(-0.25), x_momentum: F(0.75), y_momentum: F(2.0) };
    let top = c(1.0, 0.0, 0.0);
    let bottom = c(2.0, 0.0, 0.0);
    let recon_bottom = c(1.0, 0.0, 0.0);
    let r = well_balanced_y_flux(f, top, top, bottom, recon_bottom);
    // (2² − 1²) · (½ · g) = 3 · 4.905
    assert_eq!(r.plus.y_momentum, F(2.0 + 3.0 * (0.5 * GRAVITY)));
    assert_eq!(r.minus.y_momentum, F(2.0));
    assert_eq!(r.minus.mass, F(-0.25));
    assert_eq!(r.plus.mass, F(-0.25));
    assert_eq!(r.minus.x_momentum, F(0.75));
    assert_eq!(r.plus.x_momentum, F(0.75));
}

#[test]
fn well_balanced_flux_on_a_flat_bed_is_the_riemann_flux() {
    let left = c(2.0, 1.0, 0.5);
    let right = c(1.0, -0.5, 0.25);
    let (rl, rr) = hydrostatic_reconstruction(left, F(0.0), right, F(0.0), F(1e-5));
    let f = FluxXG { mass: F(0.3), x_momentum: F(7.0), y_momentum: F(0.1) };
    let r = well_balanced_x_flux(f, left, rl, right, rr);
    assert_eq!(r.minus, f);
    assert_eq!(r.plus, f);
}

#[test]
fn cross_momentum_fluxes_agree_bit_for_bit() {
    for &(h, hu, hv) in &[(1.0, 1.5, 2.0), (0.3, -0.7, 0.11), (7.25, 1e-3, -4.5)] {
        let u = c(h, hu, hv);
        assert_eq!(FluxXG::from_state(u).y_momentum, FluxYG::from_state(u).x_momentum);
    }
}

#[test]
fn positive_depth_flux_uses_the_depth_itself() {
    let u = c(2.0, 1.0, -0.5);
    let f = FluxXG::from_state(u);
    assert_eq!(f.mass, F(1.0));
    assert_eq!(f.x_momentum, F(1.0 * 1.0 / 2.0 + 2.0 * 2.0 * (0.5 * GRAVITY)));
    assert_eq!(f.y_momentum, F(1.0 * -0.5 / 2.0));
}

#[test]
fn dry_cell_flux_is_zero() {
    let d = Conserved2DG::<F>::dry();
    assert_eq!(FluxXG::from_state(d), FluxXG::zero());
    assert_eq!(FluxYG::from_state(d), FluxYG::zero());
}

#[test]
fn nan_depth_carries_no_flux() {
    let u = c(f64::NAN, 1.0, 1.0);
    assert_eq!(FluxXG::from_state(u), FluxXG::zero());
    assert_eq!(FluxYG::from_state(u), FluxYG::zero());
}
