use fem203::utils::NTuple;

#[test]
fn txyz_dims_and_max() {
    let t = NTuple::TXYZ(1, 5, 9, 3);
    assert_eq!(t.get_dims(), 4);
    assert_eq!(t.max(), 9);
}

#[test]
fn dims_per_arity() {
    assert_eq!(NTuple::X(7).get_dims(), 1);
    assert_eq!(NTuple::XY(7, 7).get_dims(), 2);
    assert_eq!(NTuple::XYZ(7, 7, 7).get_dims(), 3);
    assert_eq!(NTuple::TXYZ(7, 7, 7, 7).get_dims(), 4);
}

#[test]
fn max_single_component() {
    assert_eq!(NTuple::X(0).max(), 0);
    assert_eq!(NTuple::X(255).max(), 255);
}

#[test]
fn max_equal_components() {
    assert_eq!(NTuple::XY(7, 7).max(), 7);
    assert_eq!(NTuple::TXYZ(0, 0, 0, 0).max(), 0);
}

#[test]
fn max_in_every_position() {
    assert_eq!(NTuple::XY(3, 8).max(), 8);
    assert_eq!(NTuple::XY(8, 3).max(), 8);
    assert_eq!(NTuple::XYZ(9, 1, 2).max(), 9);
    assert_eq!(NTuple::XYZ(1, 9, 2).max(), 9);
    assert_eq!(NTuple::XYZ(1, 2, 9).max(), 9);
    assert_eq!(NTuple::TXYZ(200, 1, 2, 3).max(), 200);
    assert_eq!(NTuple::TXYZ(1, 200, 2, 3).max(), 200);
    assert_eq!(NTuple::TXYZ(1, 2, 200, 3).max(), 200);
    assert_eq!(NTuple::TXYZ(1, 2, 3, 200).max(), 200);
}

#[test]
fn max_at_type_boundary() {
    assert_eq!(NTuple::XYZ(255, 0, 254).max(), 255);
    assert_eq!(NTuple::TXYZ(255, 255, 0, 1).max(), 255);
}

#[test]
fn copies_are_independent() {
    let t = NTuple::XYZ(10, 10, 10);
    let u = t;
    assert_eq!(t.max(), u.max());
    assert_eq!(t.get_dims(), u.get_dims());
}
