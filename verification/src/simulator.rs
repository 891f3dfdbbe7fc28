//! One tick of the ship: from held controls and pose to force samples and the
//! net force and torque.
//!
//! Nothing is carried from one tick to the next: every result is a function of
//! the ship's layout, the pose and the input of the current tick alone.

use vstd::prelude::*;
use crate::control::{ControlType, InputState};
use crate::force::{
    compose, lemma_sum_within, net_wrench, sample_views, AbstractForce, ForceSample, NetForce,
    FORCE_LIMIT, POINT_LIMIT,
};
use crate::pose::{lemma_rotate_units, BodyPose, Frame, Orientation, Pose, AXIS_LIMIT};
use crate::ship::{EngineLocation, Mount, Ship, ShipLayout};
use crate::vector::{lemma_scaled_within, Vec3, Vector};

verus! {

/// The world-space direction along which a mount bound to `binding` pushes
/// when the body is turned as `frame` says.
pub open spec fn world_direction(binding: ControlType, frame: Frame) -> Vector {
    frame.rotate(binding.local_axis())
}

/// The force sample of `mount` for a tick with the given pose and input.
///
/// The application point follows the mount whether or not it fires.  The force
/// is the mount's world direction times its thrust while its key is held, and
/// zero otherwise.
pub open spec fn sample(mount: Mount, pose: BodyPose, input: InputState) -> ForceSample {
    ForceSample {
        application_point: pose.position.plus(pose.frame.rotate(mount.offset)),
        force_vector: if mount.binding.active(input) {
            world_direction(mount.binding, pose.frame).scaled(mount.thrust)
        } else {
            Vector::zero()
        },
    }
}

/// The sample of `mount` and every intermediate result on the way to it fit in
/// 128 bits.
pub open spec fn sample_representable(mount: Mount, pose: BodyPose, input: InputState) -> bool {
    &&& pose.frame.rotate_representable(mount.binding.local_axis())
    &&& sample(mount, pose, input).force_vector.representable()
    &&& pose.frame.rotate_representable(mount.offset)
    &&& sample(mount, pose, input).application_point.representable()
}

/// The force samples of all mounts of `ship`, the drive first.
pub open spec fn ship_samples(ship: ShipLayout, pose: BodyPose, input: InputState) -> Seq<
    ForceSample,
> {
    Seq::new(ship.mounts().len(), |i: int| sample(ship.mounts()[i], pose, input))
}

/// Whether a mount bound to `binding` fires under `input`, and the world-space
/// direction along which it pushes, where turning the binding's local axis
/// stays within 128 bits.
pub fn activation(binding: &ControlType, input: &InputState, orientation: &Orientation) -> (result:
    (bool, Vec3))
    requires
        orientation@.rotate_representable(binding.local_axis()),
    ensures
        result.0 == binding.active(*input),
        result.1@ == world_direction(*binding, orientation@),
{
    (binding.is_active(input), orientation.rotate(binding.axis()))
}

/// Computes the force sample of `mount` for this tick, where the sample and
/// the intermediate results fit in 128 bits.
pub fn sample_mount(mount: &EngineLocation, pose: &Pose, input: &InputState) -> (result:
    AbstractForce)
    requires
        sample_representable(mount@, pose@, *input),
    ensures
        result@ == sample(mount@, pose@, *input),
{
    let (active, direction) = activation(&mount.control_type, input, &pose.orientation);
    let global_vector = if active {
        direction.scaled(mount.engine.thrust as i128)
    } else {
        Vec3::zero()
    };
    let global_point = pose.position.plus(pose.orientation.rotate(mount.offset));
    AbstractForce { global_point, global_vector }
}

/// A well-formed mount of a body in a well-formed pose has a sample, and the
/// sample is well-formed.
pub proof fn lemma_sample_within(mount: EngineLocation, pose: Pose, input: InputState)
    requires
        mount.wf(),
        pose.wf(),
    ensures
        sample_representable(mount@, pose@, input),
        sample(mount@, pose@, input).application_point.within(POINT_LIMIT as int),
        sample(mount@, pose@, input).force_vector.within(FORCE_LIMIT as int),
{
    lemma_rotate_units(pose.orientation@);
    pose.orientation.lemma_rotate_within(mount.offset@);
    pose.orientation.lemma_rotate_within(mount.control_type.local_axis());
    lemma_scaled_within(
        world_direction(mount.control_type, pose.orientation@),
        mount.engine.thrust as int,
        AXIS_LIMIT as int,
        u32::MAX as int,
    );
}

/// What one tick yields for a ship: the force sample of the drive, the force
/// sample of each thruster in the order of the ship's layout, and their net
/// force and torque about the centre of mass.
#[derive(Debug, PartialEq, Eq)]
pub struct ShipForces {
    pub drive: AbstractForce,
    pub thrusters: Vec<AbstractForce>,
    pub net: NetForce,
}

impl ShipForces {
    /// These are the forces of the tick in which `ship` has pose `pose` and
    /// the controls are as `input` says: the sample of the drive and of each
    /// thruster is as `sample` gives it, and the net force and torque are the
    /// sums of all of them about the pose's centre of mass.
    pub open spec fn is_tick_of(&self, ship: ShipLayout, pose: BodyPose, input: InputState) -> bool {
        &&& self.drive@ == sample(ship.drive, pose, input)
        &&& self.thrusters@.len() == ship.thrusters.len()
        &&& forall|i: int|
            0 <= i < self.thrusters@.len() ==> (#[trigger] self.thrusters@[i])@ == sample(
                ship.thrusters[i],
                pose,
                input,
            )
        &&& self.net@ == net_wrench(ship_samples(ship, pose, input), pose.center_of_mass)
    }
}

/// Runs one tick for `ship`: samples the drive and every thruster under the
/// current pose and input, and sums the samples into the net force and the net
/// torque about the pose's centre of mass.
pub fn control_player_rocket(ship: &Ship, pose: &Pose, input: &InputState) -> (forces: ShipForces)
    requires
        ship.wf(),
        pose.wf(),
    ensures
        forces.is_tick_of(ship@, pose@, *input),
        forces.drive.wf(),
        forall|i: int| 0 <= i < forces.thrusters@.len() ==> (#[trigger] forces.thrusters@[i]).wf(),
{
    proof {
        lemma_sample_within(ship.drive, *pose, *input);
    }
    let drive = sample_mount(&ship.drive, pose, input);
    let mut thrusters: Vec<AbstractForce> = Vec::new();
    let mut all: Vec<AbstractForce> = Vec::new();
    all.push(drive);
    let mut index: usize = 0;
    while index < ship.thrusters.len()
        invariant
            ship.wf(),
            pose.wf(),
            index <= ship.thrusters@.len(),
            thrusters@.len() == index,
            all@.len() == index + 1,
            all@[0] == drive,
            drive.wf(),
            forall|i: int|
                0 <= i < index ==> {
                    &&& (#[trigger] thrusters@[i])@ == sample(ship.thrusters@[i]@, pose@, *input)
                    &&& thrusters@[i].wf()
                    &&& all@[i + 1] == thrusters@[i]
                },
        decreases ship.thrusters@.len() - index,
    {
        proof {
            lemma_sample_within(ship.thrusters@[index as int], *pose, *input);
        }
        let thruster = sample_mount(&ship.thrusters[index], pose, input);
        thrusters.push(thruster);
        all.push(thruster);
        index += 1;
    }
    proof {
        assert forall|i: int| 0 <= i < all@.len() implies (#[trigger] all@[i]).wf() by {
            if i > 0 {
                assert(all@[i] == thrusters@[i - 1]);
            }
        }
        lemma_sum_within(all@, pose.center_of_mass@);
    }
    let net = compose(&all, pose.center_of_mass);
    let forces = ShipForces { drive, thrusters, net };
    proof {
        let expected = ship_samples(ship@, pose@, *input);
        assert forall|i: int| 0 <= i < expected.len() implies sample_views(all@)[i]
            == expected[i] by {
            if i > 0 {
                assert(all@[i] == forces.thrusters@[i - 1]);
            }
        }
        assert(sample_views(all@) =~= expected);
    }
    forces
}

} // verus!
