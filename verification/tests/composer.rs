use simple_simulator::control::ControlType;
use simple_simulator::force::{
    compose, compose_present, create_force_entries, present_samples, AbstractForce, NetForce,
    FORCE_LIMIT, POINT_LIMIT,
};
use simple_simulator::ship::{Engine, EngineLocation};
use simple_simulator::vector::Vec3;

fn sample(point: (i128, i128, i128), force: (i128, i128, i128)) -> AbstractForce {
    AbstractForce {
        global_point: Vec3::new(point.0, point.1, point.2),
        global_vector: Vec3::new(force.0, force.1, force.2),
    }
}

#[test]
fn torque_is_moment_arm_cross_force() {
    let pushed = sample((3, 4, 5), (10, 20, 30));
    let wrench = pushed.to_external_force(Vec3::new(1, 1, 1));
    assert_eq!(wrench.force, Vec3::new(10, 20, 30));
    // arm (2, 3, 4) cross (10, 20, 30)
    assert_eq!(wrench.torque, Vec3::new(10, -20, 10));
}

#[test]
fn a_force_through_the_centre_of_mass_has_no_torque() {
    let pushed = sample((7, 7, 7), (1, 2, 3));
    assert_eq!(pushed.to_external_force(Vec3::new(7, 7, 7)).torque, Vec3::zero());
    let along = sample((2, 4, 6), (1, 2, 3));
    assert_eq!(along.to_external_force(Vec3::zero()).torque, Vec3::zero());
}

#[test]
fn nothing_sums_to_nothing() {
    let net = compose(&Vec::new(), Vec3::new(1, 2, 3));
    assert_eq!(net, NetForce { force: Vec3::zero(), torque: Vec3::zero() });
}

#[test]
fn compose_adds_forces_and_torques() {
    let samples = vec![sample((1, 0, 0), (0, 1, 0)), sample((0, 1, 0), (0, 0, 1)), sample(
        (0, 0, 1),
        (1, 0, 0),
    )];
    let net = compose(&samples, Vec3::zero());
    assert_eq!(net.force, Vec3::new(1, 1, 1));
    assert_eq!(net.torque, Vec3::new(1, 1, 1));
    let about = compose(&samples, Vec3::new(1, 1, 1));
    assert_eq!(about.force, Vec3::new(1, 1, 1));
    assert_eq!(about.torque, Vec3::new(1, 1, 1));
    let lopsided = compose(&samples[..2].to_vec(), Vec3::new(1, 1, 1));
    assert_eq!(lopsided.force, Vec3::new(0, 1, 1));
    // (0,-1,-1) x (0,1,0) + (-1,0,-1) x (0,0,1)
    assert_eq!(lopsided.torque, Vec3::new(1, 1, 0));
}

#[test]
fn a_sample_without_force_adds_nothing() {
    let samples = vec![sample((1, 2, 3), (4, 5, 6)), sample((9, 9, 9), (-1, 0, 2))];
    let mut padded = samples.clone();
    padded.insert(1, sample((100, -100, 50), (0, 0, 0)));
    let center = Vec3::new(2, 0, -2);
    assert_eq!(compose(&padded, center), compose(&samples, center));
}

#[test]
fn compose_is_exact_at_the_limits() {
    let extreme = sample((POINT_LIMIT, -POINT_LIMIT, 0), (FORCE_LIMIT, FORCE_LIMIT, 0));
    let net = compose(&vec![extreme; 3], Vec3::new(-POINT_LIMIT, POINT_LIMIT, 0));
    assert_eq!(net.force, Vec3::new(3 * FORCE_LIMIT, 3 * FORCE_LIMIT, 0));
    assert_eq!(net.torque, Vec3::new(0, 0, 3 * 4 * POINT_LIMIT * FORCE_LIMIT));
}

#[test]
fn missing_slots_are_left_out() {
    let first = sample((1, 0, 0), (0, 5, 0));
    let second = sample((0, 0, 2), (7, 0, 0));
    let slots = vec![None, Some(first), None, None, Some(second), None];
    assert_eq!(present_samples(&slots), vec![first, second]);
    assert_eq!(present_samples(&vec![None, None]), Vec::new());
    assert_eq!(present_samples(&Vec::new()), Vec::new());
}

#[test]
fn a_missing_mount_adds_nothing_to_the_net_force() {
    let first = sample((1, 0, 0), (0, 5, 0));
    let second = sample((0, 0, 2), (7, 0, 0));
    let center = Vec3::new(0, 1, 0);
    let all = compose_present(&vec![Some(first), Some(second)], center);
    assert_eq!(all, compose(&vec![first, second], center));
    assert_eq!(all.force, Vec3::new(7, 5, 0));
    let without_second = compose_present(&vec![Some(first), None], center);
    assert_eq!(without_second, compose(&vec![first], center));
    assert_eq!(without_second.force, Vec3::new(0, 5, 0));
    assert_eq!(without_second.torque, Vec3::new(0, 0, 5));
    let none = compose_present(&vec![None, None, None], center);
    assert_eq!(none, NetForce { force: Vec3::zero(), torque: Vec3::zero() });
}

#[test]
fn force_entries_start_without_force() {
    let engine = EngineLocation {
        offset: Vec3::new(1, 2, 3),
        control_type: ControlType::YawLeft,
        engine: Engine { isp: 300, thrust: 200 },
    };
    let entries = create_force_entries(&vec![engine; 3]);
    assert_eq!(entries, vec![AbstractForce::default(); 3]);
    assert_eq!(AbstractForce::default(), sample((0, 0, 0), (0, 0, 0)));
    assert_eq!(create_force_entries(&Vec::new()), Vec::new());
}

#[test]
fn samples_are_checked_against_their_limits() {
    assert!(sample((POINT_LIMIT, 0, -POINT_LIMIT), (FORCE_LIMIT, -FORCE_LIMIT, 0)).is_valid());
    assert!(!sample((POINT_LIMIT + 1, 0, 0), (0, 0, 0)).is_valid());
    assert!(!sample((0, 0, 0), (0, 0, -FORCE_LIMIT - 1)).is_valid());
}
