//! Where the body is and how it is turned.

use vstd::prelude::*;
use crate::vector::{lemma_scaled_within, Vec3, Vector};

verus! {

/// The images, in world space, of the body's three local axes.
///
/// A frame acts on body-local vectors as the linear map whose columns are its
/// axes.  A rotation is a frame that `is_orthonormal`; callers working in fixed
/// point scale a rotation's axes by their unit.
pub struct Frame {
    pub x_axis: Vector,
    pub y_axis: Vector,
    pub z_axis: Vector,
}

impl Frame {
    /// The frame of a body that is not turned at all.
    pub open spec fn identity() -> Frame {
        Frame { x_axis: Vector::unit_x(), y_axis: Vector::unit_y(), z_axis: Vector::unit_z() }
    }

    /// The world-space image of the body-local vector `v`.
    pub open spec fn rotate(self, v: Vector) -> Vector {
        self.x_axis.scaled(v.x).plus(self.y_axis.scaled(v.y)).plus(self.z_axis.scaled(v.z))
    }

    /// The image of `v` and every intermediate result of `rotate` fit in 128
    /// bits.
    pub open spec fn rotate_representable(self, v: Vector) -> bool {
        &&& self.x_axis.scaled(v.x).representable()
        &&& self.y_axis.scaled(v.y).representable()
        &&& self.z_axis.scaled(v.z).representable()
        &&& self.x_axis.scaled(v.x).plus(self.y_axis.scaled(v.y)).representable()
        &&& self.rotate(v).representable()
    }

    /// The axes have length one, are mutually perpendicular and right-handed.
    pub open spec fn is_orthonormal(self) -> bool {
        &&& self.x_axis.norm_squared() == 1
        &&& self.y_axis.norm_squared() == 1
        &&& self.z_axis.norm_squared() == 1
        &&& self.x_axis.dot(self.y_axis) == 0
        &&& self.y_axis.dot(self.z_axis) == 0
        &&& self.z_axis.dot(self.x_axis) == 0
        &&& self.x_axis.cross(self.y_axis) == self.z_axis
    }
}

/// A frame takes each local unit vector to the axis of that name, and its
/// opposite to the opposite of the axis.
pub proof fn lemma_rotate_units(frame: Frame)
    ensures
        frame.rotate(Vector::unit_x()) == frame.x_axis,
        frame.rotate(Vector::unit_y()) == frame.y_axis,
        frame.rotate(Vector::unit_z()) == frame.z_axis,
        frame.rotate(Vector::unit_x().negated()) == frame.x_axis.negated(),
        frame.rotate(Vector::unit_y().negated()) == frame.y_axis.negated(),
        frame.rotate(Vector::unit_z().negated()) == frame.z_axis.negated(),
{
}

/// A frame takes a multiple of a vector to the same multiple of its image.
pub proof fn lemma_rotate_scaled(frame: Frame, v: Vector, factor: int)
    ensures
        frame.rotate(v.scaled(factor)) == frame.rotate(v).scaled(factor),
{
    lemma_scaled_sum(frame.x_axis.x, v.x, frame.y_axis.x, v.y, frame.z_axis.x, v.z, factor);
    lemma_scaled_sum(frame.x_axis.y, v.x, frame.y_axis.y, v.y, frame.z_axis.y, v.z, factor);
    lemma_scaled_sum(frame.x_axis.z, v.x, frame.y_axis.z, v.y, frame.z_axis.z, v.z, factor);
}

/// `a * (x * f) + b * (y * f) + c * (z * f) == (a * x + b * y + c * z) * f`.
proof fn lemma_scaled_sum(a: int, x: int, b: int, y: int, c: int, z: int, f: int)
    ensures
        a * (x * f) + b * (y * f) + c * (z * f) == (a * x + b * y + c * z) * f,
{
    lemma_product_regroups(a, x, f);
    lemma_product_regroups(b, y, f);
    lemma_product_regroups(c, z, f);
    lemma_sum_times(a * x, b * y, c * z, f);
}

/// `a * (b * c) == (a * b) * c`.
proof fn lemma_product_regroups(a: int, b: int, c: int)
    by (nonlinear_arith)
    ensures
        a * (b * c) == (a * b) * c,
{
}

/// `(a + b + c) * f == a * f + b * f + c * f`.
proof fn lemma_sum_times(a: int, b: int, c: int, f: int)
    by (nonlinear_arith)
    ensures
        (a + b + c) * f == a * f + b * f + c * f,
{
}

/// Largest magnitude, `2^20`, of a component of an orientation's axes.
pub const AXIS_LIMIT: i128 = 0x10_0000;

/// Largest magnitude, `2^32`, of a component of a body-local offset.
pub const OFFSET_LIMIT: i128 = 0x1_0000_0000;

/// Largest magnitude, `3 * 2^52`, of a component of a rotated offset.
pub const ROTATED_LIMIT: i128 = 0x30_0000_0000_0000;

/// Largest magnitude, `2^56`, of a component of the body's position or of its
/// centre of mass.
pub const POSITION_LIMIT: i128 = 0x100_0000_0000_0000;

/// The body's orientation, given by the world-space images of its local axes.
#[derive(Clone, Copy, Debug, PartialEq, Eq, Structural)]
pub struct Orientation {
    pub x_axis: Vec3,
    pub y_axis: Vec3,
    pub z_axis: Vec3,
}

impl View for Orientation {
    type V = Frame;

    open spec fn view(&self) -> Frame {
        Frame { x_axis: self.x_axis@, y_axis: self.y_axis@, z_axis: self.z_axis@ }
    }
}

impl Orientation {
    /// The axes are small enough for the arithmetic of a tick.
    pub open spec fn wf(&self) -> bool {
        &&& self.x_axis@.within(AXIS_LIMIT as int)
        &&& self.y_axis@.within(AXIS_LIMIT as int)
        &&& self.z_axis@.within(AXIS_LIMIT as int)
    }

    /// Whether the orientation is well-formed.
    pub fn is_valid(&self) -> (ok: bool)
        ensures
            ok == self.wf(),
    {
        self.x_axis.is_within(AXIS_LIMIT) && self.y_axis.is_within(AXIS_LIMIT)
            && self.z_axis.is_within(AXIS_LIMIT)
    }

    /// The orientation of a body that is not turned at all.
    pub fn identity() -> (orientation: Orientation)
        ensures
            orientation@ == Frame::identity(),
            orientation.wf(),
    {
        Orientation {
            x_axis: Vec3::new(1, 0, 0),
            y_axis: Vec3::new(0, 1, 0),
            z_axis: Vec3::new(0, 0, 1),
        }
    }

    /// Takes the body-local vector `v` to world space, where the image and
    /// the intermediate results fit in 128 bits.
    pub fn rotate(&self, v: Vec3) -> (image: Vec3)
        requires
            self@.rotate_representable(v@),
        ensures
            image@ == self@.rotate(v@),
    {
        let along_x = self.x_axis.scaled(v.x);
        let along_y = self.y_axis.scaled(v.y);
        let along_z = self.z_axis.scaled(v.z);
        along_x.plus(along_y).plus(along_z)
    }

    /// A well-formed orientation can rotate every offset within
    /// `OFFSET_LIMIT`, and no component of the image exceeds `ROTATED_LIMIT`.
    pub proof fn lemma_rotate_within(&self, v: Vector)
        requires
            self.wf(),
            v.within(OFFSET_LIMIT as int),
        ensures
            self@.rotate_representable(v),
            self@.rotate(v).within(ROTATED_LIMIT as int),
    {
        lemma_scaled_within(self.x_axis@, v.x, AXIS_LIMIT as int, OFFSET_LIMIT as int);
        lemma_scaled_within(self.y_axis@, v.y, AXIS_LIMIT as int, OFFSET_LIMIT as int);
        lemma_scaled_within(self.z_axis@, v.z, AXIS_LIMIT as int, OFFSET_LIMIT as int);
    }
}

/// The mathematical pose of the body for one tick.
pub struct BodyPose {
    pub position: Vector,
    pub frame: Frame,
    pub center_of_mass: Vector,
}

/// The pose of the body for one tick: world-space position, orientation and
/// world-space centre of mass.
#[derive(Clone, Copy, Debug, PartialEq, Eq, Structural)]
pub struct Pose {
    pub position: Vec3,
    pub orientation: Orientation,
    pub center_of_mass: Vec3,
}

impl View for Pose {
    type V = BodyPose;

    open spec fn view(&self) -> BodyPose {
        BodyPose {
            position: self.position@,
            frame: self.orientation@,
            center_of_mass: self.center_of_mass@,
        }
    }
}

impl Pose {
    /// Position, orientation and centre of mass are small enough for the
    /// arithmetic of a tick.
    pub open spec fn wf(&self) -> bool {
        &&& self.position@.within(POSITION_LIMIT as int)
        &&& self.center_of_mass@.within(POSITION_LIMIT as int)
        &&& self.orientation.wf()
    }

    /// Whether the pose is well-formed.
    pub fn is_valid(&self) -> (ok: bool)
        ensures
            ok == self.wf(),
    {
        self.position.is_within(POSITION_LIMIT) && self.center_of_mass.is_within(POSITION_LIMIT)
            && self.orientation.is_valid()
    }
}

} // verus!
