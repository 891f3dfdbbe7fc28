use simple_simulator::vector::Vec3;

#[test]
fn plus_and_minus_work_component_by_component() {
    let a = Vec3::new(1, -2, 3);
    let b = Vec3::new(10, 20, -30);
    assert_eq!(a.plus(b), Vec3::new(11, 18, -27));
    assert_eq!(a.minus(b), Vec3::new(-9, -22, 33));
    assert_eq!(a.plus(Vec3::zero()), a);
}

#[test]
fn scaled_multiplies_every_component() {
    let a = Vec3::new(1, -2, 3);
    assert_eq!(a.scaled(-7), Vec3::new(-7, 14, -21));
    assert_eq!(a.scaled(0), Vec3::zero());
    assert_eq!(a.scaled(1), a);
}

#[test]
fn cross_follows_the_right_hand_rule() {
    let x = Vec3::new(1, 0, 0);
    let y = Vec3::new(0, 1, 0);
    let z = Vec3::new(0, 0, 1);
    assert_eq!(x.cross(y), z);
    assert_eq!(y.cross(z), x);
    assert_eq!(z.cross(x), y);
    assert_eq!(y.cross(x), z.scaled(-1));
    assert_eq!(Vec3::new(-1, 2, 0).cross(Vec3::new(200, 0, 0)), Vec3::new(0, 0, -400));
    assert_eq!(Vec3::new(2, 3, 4).cross(Vec3::new(5, 6, 7)), Vec3::new(-3, 6, -3));
    assert_eq!(Vec3::new(2, 3, 4).cross(Vec3::new(2, 3, 4)), Vec3::zero());
}

#[test]
fn operations_are_exact_up_to_the_width_of_the_components() {
    let half = i128::MAX / 2;
    let big = Vec3::new(half, -half, half);
    assert_eq!(big.plus(big), Vec3::new(i128::MAX - 1, -(i128::MAX - 1), i128::MAX - 1));
    assert_eq!(Vec3::new(i128::MAX, i128::MIN, 0).plus(Vec3::new(0, 0, i128::MAX)).z, i128::MAX);
    assert_eq!(Vec3::new(i128::MIN, 0, 0).minus(Vec3::new(i128::MIN, 0, 0)), Vec3::zero());
    assert_eq!(Vec3::new(i128::MAX, 0, -i128::MAX).scaled(-1), Vec3::new(-i128::MAX, 0, i128::MAX));
    let root: i128 = 1 << 63;
    assert_eq!(Vec3::new(root, -root, 1).scaled(root - 1).x, (1 << 126) - root);
    assert_eq!(
        Vec3::new(root, 0, 0).cross(Vec3::new(0, root - 1, 0)),
        Vec3::new(0, 0, (1 << 126) - root)
    );
}

#[test]
fn zero_and_range_tests() {
    assert_eq!(Vec3::zero(), Vec3::new(0, 0, 0));
    assert!(Vec3::new(5, -5, 0).is_within(5));
    assert!(!Vec3::new(5, -6, 0).is_within(5));
    assert!(!Vec3::new(6, 0, 0).is_within(5));
    assert!(!Vec3::new(0, 0, -6).is_within(5));
    assert!(Vec3::zero().is_within(0));
}
