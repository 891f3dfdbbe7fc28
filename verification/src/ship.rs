//! The static layout of a ship: its engines and where they are mounted.

use vstd::prelude::*;
use crate::control::ControlType;
use crate::pose::OFFSET_LIMIT;
use crate::vector::{Vec3, Vector};

verus! {

/// An engine.  `thrust` is the magnitude of the force it produces while it
/// fires; `isp` is its specific impulse and has no part in the forces.
#[derive(Clone, Copy, Debug, PartialEq, Eq, Structural)]
pub struct Engine {
    pub isp: u32,
    pub thrust: u32,
}

/// The outline of the hull.  It bounds the collider and the drawing and has no
/// part in the forces.
#[derive(Clone, Copy, Debug, PartialEq, Eq, Structural)]
pub enum BodyShape {
    Cyllinder { half_height: u32, radius: u32 },
    Capsule { half_height: u32, radius: u32 },
}

/// The mathematical content of a mount: where it sits in the body's frame,
/// which control fires it and how hard it pushes.
pub struct Mount {
    pub offset: Vector,
    pub binding: ControlType,
    pub thrust: int,
}

/// An engine fixed to the hull at `offset` from the body's origin, in the
/// body's own frame, and fired by `control_type`.
#[derive(Clone, Copy, Debug, PartialEq, Eq, Structural)]
pub struct EngineLocation {
    pub offset: Vec3,
    pub control_type: ControlType,
    pub engine: Engine,
}

impl View for EngineLocation {
    type V = Mount;

    open spec fn view(&self) -> Mount {
        Mount {
            offset: self.offset@,
            binding: self.control_type,
            thrust: self.engine.thrust as int,
        }
    }
}

impl EngineLocation {
    /// The offset is small enough for the arithmetic of a tick.
    pub open spec fn wf(&self) -> bool {
        self.offset@.within(OFFSET_LIMIT as int)
    }

    /// Whether the mount is well-formed.
    pub fn is_valid(&self) -> (ok: bool)
        ensures
            ok == self.wf(),
    {
        self.offset.is_within(OFFSET_LIMIT)
    }
}

/// Largest number of thrusters, `2^14`, a ship may carry besides its drive.
pub const MOUNT_LIMIT: usize = 0x4000;

/// The mathematical content of a ship: its drive and its thrusters, in order.
pub struct ShipLayout {
    pub drive: Mount,
    pub thrusters: Seq<Mount>,
}

impl ShipLayout {
    /// All mounts of the ship: the drive first, then the thrusters in order.
    pub open spec fn mounts(self) -> Seq<Mount> {
        seq![self.drive] + self.thrusters
    }
}

/// A ship.  The layout is fixed when the ship is made.
#[derive(Debug, PartialEq, Eq)]
pub struct Ship {
    pub shape: BodyShape,
    pub density: u32,
    pub drive: EngineLocation,
    pub thrusters: Vec<EngineLocation>,
}

impl View for Ship {
    type V = ShipLayout;

    open spec fn view(&self) -> ShipLayout {
        ShipLayout {
            drive: self.drive@,
            thrusters: Seq::new(self.thrusters@.len(), |i: int| self.thrusters@[i]@),
        }
    }
}

/// Why a ship's configuration is refused.
#[derive(Clone, Copy, Debug, PartialEq, Eq, Structural)]
pub enum ConfigError {
    /// The drive is bound to a control other than `Accelerate`.
    DriveNotAccelerate,
    /// There are more than `MOUNT_LIMIT` thrusters.
    TooManyThrusters,
    /// The drive or a thruster sits farther than `OFFSET_LIMIT` from the
    /// origin along some axis.
    OffsetOutOfRange,
}

impl Ship {
    /// The drive is bound to `Accelerate`, there are at most `MOUNT_LIMIT`
    /// thrusters, and every mount is well-formed.
    pub open spec fn wf(&self) -> bool {
        &&& self.drive.control_type == ControlType::Accelerate
        &&& self.thrusters@.len() <= MOUNT_LIMIT
        &&& self.offsets_in_range()
    }

    /// The drive and every thruster are well-formed.
    pub open spec fn offsets_in_range(&self) -> bool {
        &&& self.drive.wf()
        &&& forall|i: int| 0 <= i < self.thrusters@.len() ==> (#[trigger] self.thrusters@[i]).wf()
    }

    /// Checks the configuration.  Of several faults the first in the order of
    /// `ConfigError`'s variants is reported.
    pub fn validate(&self) -> (outcome: Result<(), ConfigError>)
        ensures
            outcome is Ok <==> self.wf(),
            outcome == Err::<(), ConfigError>(ConfigError::DriveNotAccelerate)
                <==> self.drive.control_type != ControlType::Accelerate,
            outcome == Err::<(), ConfigError>(ConfigError::TooManyThrusters) <==> {
                &&& self.drive.control_type == ControlType::Accelerate
                &&& self.thrusters@.len() > MOUNT_LIMIT
            },
            outcome == Err::<(), ConfigError>(ConfigError::OffsetOutOfRange) <==> {
                &&& self.drive.control_type == ControlType::Accelerate
                &&& self.thrusters@.len() <= MOUNT_LIMIT
                &&& !self.offsets_in_range()
            },
    {
        match self.drive.control_type {
            ControlType::Accelerate => {},
            _ => {
                return Err(ConfigError::DriveNotAccelerate);
            },
        }
        if self.thrusters.len() > MOUNT_LIMIT {
            return Err(ConfigError::TooManyThrusters);
        }
        if !self.drive.is_valid() {
            return Err(ConfigError::OffsetOutOfRange);
        }
        let mut index: usize = 0;
        while index < self.thrusters.len()
            invariant
                self.drive.control_type == ControlType::Accelerate,
                self.drive.wf(),
                index <= self.thrusters@.len() <= MOUNT_LIMIT,
                forall|i: int| 0 <= i < index ==> (#[trigger] self.thrusters@[i]).wf(),
            decreases self.thrusters@.len() - index,
        {
            if !self.thrusters[index].is_valid() {
                return Err(ConfigError::OffsetOutOfRange);
            }
            index += 1;
        }
        Ok(())
    }
}

/// The thruster of the standard ship that sits at `offset` and is fired by
/// `control_type`: thrust 200, specific impulse 300.
pub open spec fn direction_thruster(offset: Vec3, control_type: ControlType) -> EngineLocation {
    EngineLocation { offset, control_type, engine: Engine { isp: 300, thrust: 200 } }
}

/// The drive of the standard ship: thrust 8000, specific impulse 10000, five
/// units below the origin.
pub open spec fn standard_drive() -> EngineLocation {
    EngineLocation {
        offset: Vec3 { x: 0, y: (-5int) as i128, z: 0 },
        control_type: ControlType::Accelerate,
        engine: Engine { isp: 10000, thrust: 8000 },
    }
}

/// The four thrusters of the standard ship, two units above the origin and one
/// unit out along each horizontal axis, each pushing towards the hull's axis.
pub open spec fn standard_thrusters() -> Seq<EngineLocation> {
    seq![
        direction_thruster(Vec3 { x: (-1int) as i128, y: 2, z: 0 }, ControlType::YawRight),
        direction_thruster(Vec3 { x: 1, y: 2, z: 0 }, ControlType::YawLeft),
        direction_thruster(Vec3 { x: 0, y: 2, z: (-1int) as i128 }, ControlType::PitchDown),
        direction_thruster(Vec3 { x: 0, y: 2, z: 1 }, ControlType::PitchUp),
    ]
}

/// Builds the standard ship: a cylinder of half-height 5 and radius 1 with
/// density 10, the standard drive and the four standard thrusters.
pub fn build_standard_in_engine() -> (ship: Ship)
    ensures
        ship.wf(),
        ship.shape == (BodyShape::Cyllinder { half_height: 5, radius: 1 }),
        ship.density == 10,
        ship.drive == standard_drive(),
        ship.thrusters@ == standard_thrusters(),
{
    let thruster = Engine { isp: 300, thrust: 200 };
    let mut thrusters: Vec<EngineLocation> = Vec::new();
    thrusters.push(
        EngineLocation {
            offset: Vec3::new(-1, 2, 0),
            control_type: ControlType::YawRight,
            engine: thruster,
        },
    );
    thrusters.push(
        EngineLocation {
            offset: Vec3::new(1, 2, 0),
            control_type: ControlType::YawLeft,
            engine: thruster,
        },
    );
    thrusters.push(
        EngineLocation {
            offset: Vec3::new(0, 2, -1),
            control_type: ControlType::PitchDown,
            engine: thruster,
        },
    );
    thrusters.push(
        EngineLocation {
            offset: Vec3::new(0, 2, 1),
            control_type: ControlType::PitchUp,
            engine: thruster,
        },
    );
    Ship {
        shape: BodyShape::Cyllinder { half_height: 5, radius: 1 },
        density: 10,
        drive: EngineLocation {
            offset: Vec3::new(0, -5, 0),
            control_type: ControlType::Accelerate,
            engine: Engine { isp: 10000, thrust: 8000 },
        },
        thrusters,
    }
}

} // verus!
