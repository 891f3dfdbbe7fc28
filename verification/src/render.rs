//! The visualisation feed: which force samples are worth an arrow, and from
//! where to where the arrow runs.

use vstd::prelude::*;
use crate::force::{sample_views, AbstractForce, ForceSample};
use crate::vector::{Vec3, Vector};

verus! {

/// A straight line from `start` to `end`.
pub struct Segment {
    pub start: Vector,
    pub end: Vector,
}

/// The arrow that shows `sample` at display scale `scale`: it starts at the
/// application point and runs against the force, `scale` units of length per
/// unit of force.
pub open spec fn arrow_of(sample: ForceSample, scale: int) -> Segment {
    Segment {
        start: sample.application_point,
        end: sample.application_point.minus(sample.force_vector.scaled(scale)),
    }
}

/// The scaled force and the far end of the arrow of `sample` fit in 128 bits.
pub open spec fn arrow_representable(sample: ForceSample, scale: int) -> bool {
    &&& sample.force_vector.scaled(scale).representable()
    &&& arrow_of(sample, scale).end.representable()
}

/// The arrow of `sample` has no length, so it is not drawn.
pub open spec fn degenerate(sample: ForceSample, scale: int) -> bool {
    arrow_of(sample, scale).end == arrow_of(sample, scale).start
}

/// The arrows of those of `samples` that are drawn, in order.
pub open spec fn arrows_of(samples: Seq<ForceSample>, scale: int) -> Seq<Segment>
    decreases samples.len(),
{
    if samples.len() == 0 {
        Seq::empty()
    } else if degenerate(samples.last(), scale) {
        arrows_of(samples.drop_last(), scale)
    } else {
        arrows_of(samples.drop_last(), scale).push(arrow_of(samples.last(), scale))
    }
}

/// An arrow to draw, in world space.
#[derive(Clone, Copy, Debug, PartialEq, Eq, Structural)]
pub struct Arrow {
    pub start: Vec3,
    pub end: Vec3,
}

impl View for Arrow {
    type V = Segment;

    open spec fn view(&self) -> Segment {
        Segment { start: self.start@, end: self.end@ }
    }
}

/// The mathematical content of each arrow of `arrows`, in order.
pub open spec fn arrow_views(arrows: Seq<Arrow>) -> Seq<Segment> {
    Seq::new(arrows.len(), |i: int| arrows[i]@)
}

/// The arrow that shows `sample` at display scale `scale`, or `None` if the
/// arrow would have no length.  The sample itself is left as it is.
pub fn force_arrow(sample: &AbstractForce, scale: i32) -> (arrow: Option<Arrow>)
    requires
        arrow_representable(sample@, scale as int),
    ensures
        arrow is None <==> degenerate(sample@, scale as int),
        arrow matches Some(drawn) ==> drawn@ == arrow_of(sample@, scale as int),
{
    let start = sample.global_point;
    let end = start.minus(sample.global_vector.scaled(scale as i128));
    if end == start {
        None
    } else {
        Some(Arrow { start, end })
    }
}

/// The arrows of one tick: the drive's, if it is drawn, and those of the
/// thrusters that are drawn, in the order of the ship's layout.
#[derive(Debug, PartialEq, Eq)]
pub struct ForceArrows {
    pub drive: Option<Arrow>,
    pub thrusters: Vec<Arrow>,
}

/// Turns the force samples of a tick, the drive's and the thrusters', into the
/// arrows to draw at display scale `scale`, leaving out every arrow without
/// length.  The samples are only read.
pub fn render_forces(drive: &AbstractForce, thrusters: &Vec<AbstractForce>, scale: i32) -> (arrows:
    ForceArrows)
    requires
        arrow_representable(drive@, scale as int),
        forall|i: int|
            0 <= i < thrusters@.len() ==> arrow_representable(
                (#[trigger] thrusters@[i])@,
                scale as int,
            ),
    ensures
        arrows.drive is None <==> degenerate(drive@, scale as int),
        arrows.drive matches Some(drawn) ==> drawn@ == arrow_of(drive@, scale as int),
        arrow_views(arrows.thrusters@) == arrows_of(sample_views(thrusters@), scale as int),
{
    let drive_arrow = force_arrow(drive, scale);
    let ghost samples = sample_views(thrusters@);
    let mut drawn: Vec<Arrow> = Vec::new();
    let mut index: usize = 0;
    while index < thrusters.len()
        invariant
            index <= thrusters@.len(),
            samples == sample_views(thrusters@),
            forall|i: int|
                0 <= i < thrusters@.len() ==> arrow_representable(
                    (#[trigger] thrusters@[i])@,
                    scale as int,
                ),
            arrow_views(drawn@) == arrows_of(samples.take(index as int), scale as int),
        decreases thrusters@.len() - index,
    {
        proof {
            assert(samples.take(index + 1).drop_last() == samples.take(index as int));
            assert(samples.take(index + 1).last() == thrusters@[index as int]@);
        }
        let ghost before = drawn@;
        match force_arrow(&thrusters[index], scale) {
            Some(arrow) => {
                drawn.push(arrow);
                proof {
                    assert(arrow_views(drawn@) == arrow_views(before).push(arrow@));
                }
            },
            None => {},
        }
        index += 1;
    }
    proof {
        assert(samples.take(index as int) == samples);
    }
    ForceArrows { drive: drive_arrow, thrusters: drawn }
}

} // verus!
