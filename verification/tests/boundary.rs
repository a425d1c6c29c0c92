use hydroflux_solver_2d::Side;

#[test]
fn side_is_x_face_partitions_sides_correctly() {
    assert!(Side::West.is_x_face());
    assert!(Side::East.is_x_face());
    assert!(!Side::North.is_x_face());
    assert!(!Side::South.is_x_face());
}
