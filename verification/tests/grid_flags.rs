use hydroflux_solver_2d::face::{any_neighbor_dry_x, any_neighbor_dry_y};
use hydroflux_solver_2d::Integrator;

#[test]
fn neighbor_dry_x_sees_two_cells_each_way() {
    // 2 rows x 6 columns; only (1, 5) is dry.
    let mut dry = vec![false; 12];
    dry[6 + 5] = true;
    assert!(any_neighbor_dry_x(&dry, 2, 6, 1, 3));
    assert!(any_neighbor_dry_x(&dry, 2, 6, 1, 5));
    assert!(!any_neighbor_dry_x(&dry, 2, 6, 1, 2));
    assert!(!any_neighbor_dry_x(&dry, 2, 6, 0, 5));
}

#[test]
fn neighbor_dry_y_sees_two_cells_each_way() {
    // 6 rows x 2 columns; only (0, 1) is dry.
    let mut dry = vec![false; 12];
    dry[1] = true;
    assert!(any_neighbor_dry_y(&dry, 6, 2, 2, 1));
    assert!(!any_neighbor_dry_y(&dry, 6, 2, 3, 1));
    assert!(!any_neighbor_dry_y(&dry, 6, 2, 0, 0));
}

#[test]
fn default_integrator_is_ssp_rk2() {
    assert_eq!(Integrator::default(), Integrator::SspRk2);
}
