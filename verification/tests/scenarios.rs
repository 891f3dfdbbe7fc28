use simple_simulator::control::{ControlType, InputState, Key};
use simple_simulator::force::{compose, AbstractForce, NetForce};
use simple_simulator::pose::{Orientation, Pose, AXIS_LIMIT, OFFSET_LIMIT, POSITION_LIMIT};
use simple_simulator::ship::{
    build_standard_in_engine, BodyShape, Engine, EngineLocation, Ship, MOUNT_LIMIT,
};
use simple_simulator::simulator::{activation, control_player_rocket, sample_mount};
use simple_simulator::vector::Vec3;

fn at_rest() -> Pose {
    Pose {
        position: Vec3::new(0, 0, 0),
        orientation: Orientation::identity(),
        center_of_mass: Vec3::new(0, 0, 0),
    }
}

/// The body turned a quarter turn about the world's X axis: its up axis now
/// points along world +Z.
fn quarter_turn_about_x() -> Orientation {
    Orientation {
        x_axis: Vec3::new(1, 0, 0),
        y_axis: Vec3::new(0, 0, 1),
        z_axis: Vec3::new(0, -1, 0),
    }
}

fn holding(keys: &[Key]) -> InputState {
    let mut input = InputState::released();
    for key in keys {
        input.set(*key, true);
    }
    input
}

fn yaw_right_thruster() -> EngineLocation {
    EngineLocation {
        offset: Vec3::new(-1, 2, 0),
        control_type: ControlType::YawRight,
        engine: Engine { isp: 300, thrust: 200 },
    }
}

#[test]
fn yaw_right_held_pushes_along_x_and_twists_about_z() {
    let pose = at_rest();
    let sample = sample_mount(&yaw_right_thruster(), &pose, &holding(&[Key::D]));
    assert_eq!(sample.global_vector, Vec3::new(200, 0, 0));
    assert_eq!(sample.global_point, Vec3::new(-1, 2, 0));
    let wrench = sample.to_external_force(pose.center_of_mass);
    assert_eq!(wrench.force, Vec3::new(200, 0, 0));
    assert_eq!(wrench.torque, Vec3::new(0, 0, -400));
}

#[test]
fn yaw_right_released_exerts_nothing() {
    let pose = at_rest();
    let sample = sample_mount(&yaw_right_thruster(), &pose, &InputState::released());
    assert_eq!(sample.global_vector, Vec3::new(0, 0, 0));
    assert_eq!(sample.global_point, Vec3::new(-1, 2, 0));
    let wrench = sample.to_external_force(pose.center_of_mass);
    assert_eq!(wrench.torque, Vec3::new(0, 0, 0));
}

#[test]
fn drive_thrust_turns_with_the_body() {
    let ship = build_standard_in_engine();
    let pose = Pose {
        position: Vec3::new(0, 0, 0),
        orientation: quarter_turn_about_x(),
        center_of_mass: Vec3::new(0, 0, 0),
    };
    let forces = control_player_rocket(&ship, &pose, &holding(&[Key::Space]));
    assert_eq!(forces.drive.global_vector, Vec3::new(0, 0, 8000));
    assert_ne!(forces.drive.global_vector, Vec3::new(0, 8000, 0));
    assert_eq!(forces.drive.global_point, Vec3::new(0, 0, -5));
    assert_eq!(forces.net.force, Vec3::new(0, 0, 8000));
    assert_eq!(forces.net.torque, Vec3::new(0, 0, 0));
}

#[test]
fn idle_ship_exerts_no_force_and_no_torque() {
    let ship = build_standard_in_engine();
    for orientation in [Orientation::identity(), quarter_turn_about_x()] {
        let pose = Pose {
            position: Vec3::new(3, -4, 5),
            orientation,
            center_of_mass: Vec3::new(1, 1, 1),
        };
        let forces = control_player_rocket(&ship, &pose, &InputState::released());
        assert_eq!(forces.net, NetForce { force: Vec3::new(0, 0, 0), torque: Vec3::new(0, 0, 0) });
        assert_eq!(forces.drive.global_vector, Vec3::new(0, 0, 0));
        assert_eq!(forces.thrusters.len(), 4);
        for sample in &forces.thrusters {
            assert_eq!(sample.global_vector, Vec3::new(0, 0, 0));
        }
    }
}

#[test]
fn each_binding_pushes_along_its_own_axis() {
    let input = holding(&[Key::W, Key::A, Key::S, Key::D, Key::Space]);
    let identity = Orientation::identity();
    assert_eq!(activation(&ControlType::Accelerate, &input, &identity), (true, Vec3::new(0, 1, 0)));
    assert_eq!(activation(&ControlType::PitchUp, &input, &identity), (true, Vec3::new(0, 0, -1)));
    assert_eq!(activation(&ControlType::PitchDown, &input, &identity), (true, Vec3::new(0, 0, 1)));
    assert_eq!(activation(&ControlType::YawLeft, &input, &identity), (true, Vec3::new(-1, 0, 0)));
    assert_eq!(activation(&ControlType::YawRight, &input, &identity), (true, Vec3::new(1, 0, 0)));

    let turned = quarter_turn_about_x();
    assert_eq!(activation(&ControlType::Accelerate, &input, &turned).1, Vec3::new(0, 0, 1));
    assert_eq!(activation(&ControlType::PitchUp, &input, &turned).1, Vec3::new(0, 1, 0));
    assert_eq!(activation(&ControlType::PitchDown, &input, &turned).1, Vec3::new(0, -1, 0));
    assert_eq!(activation(&ControlType::YawLeft, &input, &turned).1, Vec3::new(-1, 0, 0));
    assert_eq!(activation(&ControlType::YawRight, &input, &turned).1, Vec3::new(1, 0, 0));
}

#[test]
fn each_binding_listens_to_its_own_key_only() {
    let bindings = [
        (ControlType::Accelerate, Key::Space),
        (ControlType::PitchUp, Key::W),
        (ControlType::PitchDown, Key::S),
        (ControlType::YawLeft, Key::A),
        (ControlType::YawRight, Key::D),
    ];
    let identity = Orientation::identity();
    for (binding, key) in bindings {
        for (_, other) in bindings {
            let input = holding(&[other]);
            assert_eq!(activation(&binding, &input, &identity).0, other == key);
        }
    }
}

#[test]
fn a_single_held_key_gives_exactly_the_engine_thrust() {
    let ship = build_standard_in_engine();
    let pose = Pose {
        position: Vec3::new(7, 8, 9),
        orientation: quarter_turn_about_x(),
        center_of_mass: Vec3::new(7, 8, 9),
    };
    let keys = [Key::D, Key::A, Key::S, Key::W];
    for (index, key) in keys.iter().enumerate() {
        let forces = control_player_rocket(&ship, &pose, &holding(&[*key]));
        for (other, sample) in forces.thrusters.iter().enumerate() {
            let force = sample.global_vector;
            let squared = force.x * force.x + force.y * force.y + force.z * force.z;
            if other == index {
                assert_eq!(squared, 200 * 200);
            } else {
                assert_eq!(squared, 0);
            }
        }
        assert_eq!(forces.drive.global_vector, Vec3::new(0, 0, 0));
    }
}

#[test]
fn a_key_takes_effect_in_the_very_next_tick() {
    let pose = at_rest();
    let mount = yaw_right_thruster();
    let mut input = InputState::released();
    assert_eq!(sample_mount(&mount, &pose, &input).global_vector, Vec3::new(0, 0, 0));
    input.set(Key::D, true);
    assert_eq!(sample_mount(&mount, &pose, &input).global_vector, Vec3::new(200, 0, 0));
    input.set(Key::D, false);
    assert_eq!(sample_mount(&mount, &pose, &input).global_vector, Vec3::new(0, 0, 0));
}

#[test]
fn application_point_follows_the_mount_even_when_it_is_silent() {
    let pose = Pose {
        position: Vec3::new(10, 20, 30),
        orientation: quarter_turn_about_x(),
        center_of_mass: Vec3::new(0, 0, 0),
    };
    let sample = sample_mount(&yaw_right_thruster(), &pose, &InputState::released());
    assert_eq!(sample.global_point, Vec3::new(9, 20, 32));
    assert_eq!(sample.global_vector, Vec3::new(0, 0, 0));
}

#[test]
fn net_force_and_torque_do_not_depend_on_the_order() {
    let samples = vec![
        AbstractForce { global_point: Vec3::new(-1, 2, 0), global_vector: Vec3::new(200, 0, 0) },
        AbstractForce { global_point: Vec3::new(0, 2, 1), global_vector: Vec3::new(0, 0, -200) },
        AbstractForce { global_point: Vec3::new(0, -5, 0), global_vector: Vec3::new(0, 8000, 0) },
        AbstractForce { global_point: Vec3::new(4, 4, 4), global_vector: Vec3::new(1, -2, 3) },
    ];
    let center = Vec3::new(1, -1, 2);
    let expected = compose(&samples, center);
    let orders: [[usize; 4]; 5] =
        [[3, 2, 1, 0], [1, 0, 3, 2], [2, 3, 0, 1], [0, 2, 1, 3], [1, 2, 3, 0]];
    for order in orders {
        let shuffled: Vec<AbstractForce> = order.iter().map(|i| samples[*i]).collect();
        assert_eq!(compose(&shuffled, center), expected);
    }
    assert_eq!(expected.force, Vec3::new(201, 7998, -197));
}

#[test]
fn the_same_tick_twice_gives_the_same_forces() {
    let ship = build_standard_in_engine();
    let pose = Pose {
        position: Vec3::new(1, 2, 3),
        orientation: quarter_turn_about_x(),
        center_of_mass: Vec3::new(1, 3, 3),
    };
    let input = holding(&[Key::Space, Key::W, Key::D]);
    let first = control_player_rocket(&ship, &pose, &input);
    let other = control_player_rocket(&ship, &pose, &holding(&[Key::A]));
    let second = control_player_rocket(&ship, &pose, &input);
    assert_eq!(first, second);
    assert_ne!(first.net, other.net);
}

#[test]
fn all_keys_held_on_the_standard_ship_leave_only_the_drive() {
    let ship = build_standard_in_engine();
    let input = holding(&[Key::W, Key::A, Key::S, Key::D, Key::Space]);
    let forces = control_player_rocket(&ship, &at_rest(), &input);
    assert_eq!(forces.drive.global_point, Vec3::new(0, -5, 0));
    assert_eq!(forces.drive.global_vector, Vec3::new(0, 8000, 0));
    assert_eq!(
        forces.thrusters,
        vec![
            AbstractForce { global_point: Vec3::new(-1, 2, 0), global_vector: Vec3::new(200, 0, 0) },
            AbstractForce { global_point: Vec3::new(1, 2, 0), global_vector: Vec3::new(-200, 0, 0) },
            AbstractForce { global_point: Vec3::new(0, 2, -1), global_vector: Vec3::new(0, 0, 200) },
            AbstractForce { global_point: Vec3::new(0, 2, 1), global_vector: Vec3::new(0, 0, -200) },
        ]
    );
    assert_eq!(forces.net.force, Vec3::new(0, 8000, 0));
    assert_eq!(forces.net.torque, Vec3::new(0, 0, 0));
}

#[test]
fn one_thruster_alone_turns_the_ship() {
    let ship = build_standard_in_engine();
    let pose = Pose {
        position: Vec3::new(10, 0, 0),
        orientation: Orientation::identity(),
        center_of_mass: Vec3::new(10, 1, 0),
    };
    let forces = control_player_rocket(&ship, &pose, &holding(&[Key::S]));
    assert_eq!(forces.net.force, Vec3::new(0, 0, 200));
    // arm (0, 1, -1) cross force (0, 0, 200)
    assert_eq!(forces.net.torque, Vec3::new(200, 0, 0));
}

#[test]
fn a_scaled_frame_scales_the_force() {
    let pose = Pose {
        position: Vec3::new(0, 0, 0),
        orientation: Orientation {
            x_axis: Vec3::new(1024, 0, 0),
            y_axis: Vec3::new(0, 1024, 0),
            z_axis: Vec3::new(0, 0, 1024),
        },
        center_of_mass: Vec3::new(0, 0, 0),
    };
    let sample = sample_mount(&yaw_right_thruster(), &pose, &holding(&[Key::D]));
    assert_eq!(sample.global_vector, Vec3::new(204800, 0, 0));
    assert_eq!(sample.global_point, Vec3::new(-1024, 2048, 0));
}

#[test]
fn the_largest_ship_in_the_farthest_pose_still_fits() {
    let strongest = Engine { isp: 0, thrust: u32::MAX };
    let far_out = Vec3::new(OFFSET_LIMIT, OFFSET_LIMIT, OFFSET_LIMIT);
    let ship = Ship {
        shape: BodyShape::Capsule { half_height: 1, radius: 1 },
        density: 1,
        drive: EngineLocation {
            offset: far_out,
            control_type: ControlType::Accelerate,
            engine: strongest,
        },
        thrusters: vec![
            EngineLocation {
                offset: far_out,
                control_type: ControlType::YawRight,
                engine: strongest,
            };
            MOUNT_LIMIT
        ],
    };
    assert_eq!(ship.validate(), Ok(()));
    let pose = Pose {
        position: Vec3::new(POSITION_LIMIT, POSITION_LIMIT, POSITION_LIMIT),
        orientation: Orientation {
            x_axis: Vec3::new(AXIS_LIMIT, -AXIS_LIMIT, AXIS_LIMIT),
            y_axis: Vec3::new(AXIS_LIMIT, AXIS_LIMIT, AXIS_LIMIT),
            z_axis: Vec3::new(AXIS_LIMIT, AXIS_LIMIT, AXIS_LIMIT),
        },
        center_of_mass: Vec3::new(-POSITION_LIMIT, -POSITION_LIMIT, -POSITION_LIMIT),
    };
    assert!(pose.is_valid());

    let forces = control_player_rocket(&ship, &pose, &holding(&[Key::D]));

    let count = MOUNT_LIMIT as i128;
    let push = AXIS_LIMIT * u32::MAX as i128;
    let reach = OFFSET_LIMIT * AXIS_LIMIT;
    assert_eq!(forces.thrusters.len(), MOUNT_LIMIT);
    assert_eq!(
        forces.thrusters[MOUNT_LIMIT - 1],
        AbstractForce {
            global_point: Vec3::new(
                POSITION_LIMIT + 3 * reach,
                POSITION_LIMIT + reach,
                POSITION_LIMIT + 3 * reach
            ),
            global_vector: Vec3::new(push, -push, push),
        }
    );
    assert!(forces.thrusters[0].is_valid());
    assert_eq!(forces.net.force, Vec3::new(count * push, -count * push, count * push));
    let arm_x = 2 * POSITION_LIMIT + 3 * reach;
    let arm_y = 2 * POSITION_LIMIT + reach;
    assert_eq!(
        forces.net.torque,
        Vec3::new(
            count * (arm_y * push + arm_x * push),
            0,
            count * (-arm_x * push - arm_y * push)
        )
    );
}
