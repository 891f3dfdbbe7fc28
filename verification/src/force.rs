//! Force samples and their composition into a net force and torque.

use vstd::prelude::*;
use crate::ship::{EngineLocation, MOUNT_LIMIT};
use crate::vector::{lemma_cross_within, Vec3, Vector};

verus! {

/// A force and the torque it exerts about some reference point.
pub struct Wrench {
    pub force: Vector,
    pub torque: Vector,
}

/// A force acting at a point, both in world space.
pub struct ForceSample {
    pub application_point: Vector,
    pub force_vector: Vector,
}

impl ForceSample {
    /// No force, applied at the origin.
    pub open spec fn zero() -> ForceSample {
        ForceSample { application_point: Vector::zero(), force_vector: Vector::zero() }
    }

    /// The torque of this force about `center_of_mass`: moment arm cross force.
    pub open spec fn torque_about(self, center_of_mass: Vector) -> Vector {
        self.application_point.minus(center_of_mass).cross(self.force_vector)
    }

    /// The force together with its torque about `center_of_mass`.
    pub open spec fn wrench_about(self, center_of_mass: Vector) -> Wrench {
        Wrench { force: self.force_vector, torque: self.torque_about(center_of_mass) }
    }

    /// The moment arm about `center_of_mass`, the torque and the products it
    /// is made of fit in 128 bits.
    pub open spec fn torque_representable(self, center_of_mass: Vector) -> bool {
        &&& self.application_point.minus(center_of_mass).representable()
        &&& self.application_point.minus(center_of_mass).cross_representable(self.force_vector)
    }
}

/// The sum of the force vectors of `samples`.
pub open spec fn net_force(samples: Seq<ForceSample>) -> Vector
    decreases samples.len(),
{
    if samples.len() == 0 {
        Vector::zero()
    } else {
        net_force(samples.drop_last()).plus(samples.last().force_vector)
    }
}

/// The sum of the torques of `samples` about `center_of_mass`.
pub open spec fn net_torque(samples: Seq<ForceSample>, center_of_mass: Vector) -> Vector
    decreases samples.len(),
{
    if samples.len() == 0 {
        Vector::zero()
    } else {
        net_torque(samples.drop_last(), center_of_mass).plus(
            samples.last().torque_about(center_of_mass),
        )
    }
}

/// The net force of `samples` and their net torque about `center_of_mass`.
pub open spec fn net_wrench(samples: Seq<ForceSample>, center_of_mass: Vector) -> Wrench {
    Wrench { force: net_force(samples), torque: net_torque(samples, center_of_mass) }
}

/// Summing `samples` from the first to the last fits in 128 bits: each
/// sample's torque about `center_of_mass` does, and so does every partial sum
/// of the forces and of the torques.
pub open spec fn sum_representable(samples: Seq<ForceSample>, center_of_mass: Vector) -> bool {
    &&& forall|i: int|
        0 <= i < samples.len() ==> (#[trigger] samples[i]).torque_representable(center_of_mass)
    &&& forall|k: int|
        0 <= k <= samples.len() ==> {
            &&& net_force(#[trigger] samples.take(k)).representable()
            &&& net_torque(samples.take(k), center_of_mass).representable()
        }
}

/// Sums of bounded forces and torques are bounded by the bound times the
/// number of samples.
pub proof fn lemma_net_within(
    samples: Seq<ForceSample>,
    center_of_mass: Vector,
    force_bound: int,
    torque_bound: int,
)
    requires
        0 <= force_bound,
        0 <= torque_bound,
        forall|i: int|
            0 <= i < samples.len() ==> {
                &&& (#[trigger] samples[i]).force_vector.within(force_bound)
                &&& samples[i].torque_about(center_of_mass).within(torque_bound)
            },
    ensures
        net_force(samples).within(samples.len() * force_bound),
        net_torque(samples, center_of_mass).within(samples.len() * torque_bound),
    decreases samples.len(),
{
    if samples.len() > 0 {
        let rest = samples.drop_last();
        assert forall|i: int| 0 <= i < rest.len() implies {
            &&& (#[trigger] rest[i]).force_vector.within(force_bound)
            &&& rest[i].torque_about(center_of_mass).within(torque_bound)
        } by {
            assert(rest[i] == samples[i]);
        }
        lemma_net_within(rest, center_of_mass, force_bound, torque_bound);
        let last = samples[samples.len() - 1];
        assert(last.force_vector.within(force_bound));
        assert(samples.len() * force_bound == rest.len() * force_bound + force_bound)
            by (nonlinear_arith)
            requires
                samples.len() == rest.len() + 1,
        ;
        assert(samples.len() * torque_bound == rest.len() * torque_bound + torque_bound)
            by (nonlinear_arith)
            requires
                samples.len() == rest.len() + 1,
        ;
    }
}

/// Largest magnitude, `2^52`, of a component of a sample's force.
pub const FORCE_LIMIT: i128 = 0x10_0000_0000_0000;

/// Largest magnitude, `2^57`, of a component of a sample's application point
/// or of the point about which torques are taken.
pub const POINT_LIMIT: i128 = 0x200_0000_0000_0000;

/// Largest magnitude, `2^111`, of a component of one sample's torque.
pub const TORQUE_LIMIT: i128 = 0x8000_0000_0000_0000_0000_0000_0000;

/// Largest number of samples that can be composed at once: one per thruster
/// and one for the drive.
pub const SAMPLE_LIMIT: usize = MOUNT_LIMIT + 1;

/// The force a mount exerts during one tick: `global_vector`, applied at
/// `global_point`, both in world space.
#[derive(Clone, Copy, Debug, PartialEq, Eq, Structural)]
pub struct AbstractForce {
    pub global_point: Vec3,
    pub global_vector: Vec3,
}

impl View for AbstractForce {
    type V = ForceSample;

    open spec fn view(&self) -> ForceSample {
        ForceSample { application_point: self.global_point@, force_vector: self.global_vector@ }
    }
}

/// The force and torque handed to the physics integrator for one tick.
#[derive(Clone, Copy, Debug, PartialEq, Eq, Structural)]
pub struct NetForce {
    pub force: Vec3,
    pub torque: Vec3,
}

impl View for NetForce {
    type V = Wrench;

    open spec fn view(&self) -> Wrench {
        Wrench { force: self.force@, torque: self.torque@ }
    }
}

impl Default for AbstractForce {
    /// No force, applied at the origin.
    fn default() -> (sample: AbstractForce)
        ensures
            sample@ == ForceSample::zero(),
    {
        AbstractForce { global_point: Vec3::zero(), global_vector: Vec3::zero() }
    }
}

impl AbstractForce {
    /// Point and force are small enough for the arithmetic of a tick.
    pub open spec fn wf(&self) -> bool {
        &&& self.global_point@.within(POINT_LIMIT as int)
        &&& self.global_vector@.within(FORCE_LIMIT as int)
    }

    /// Whether the sample is well-formed.
    pub fn is_valid(&self) -> (ok: bool)
        ensures
            ok == self.wf(),
    {
        self.global_point.is_within(POINT_LIMIT) && self.global_vector.is_within(FORCE_LIMIT)
    }

    /// The force with the torque it exerts about `center_of_mass`, where the
    /// moment arm and the torque fit in 128 bits.
    pub fn to_external_force(&self, center_of_mass: Vec3) -> (wrench: NetForce)
        requires
            self@.torque_representable(center_of_mass@),
        ensures
            wrench@ == self@.wrench_about(center_of_mass@),
    {
        let arm = self.global_point.minus(center_of_mass);
        NetForce { force: self.global_vector, torque: arm.cross(self.global_vector) }
    }

    /// A well-formed sample has a torque about every point within
    /// `POINT_LIMIT`, and no component of it exceeds `TORQUE_LIMIT`.
    pub proof fn lemma_torque_within(&self, center_of_mass: Vector)
        requires
            self.wf(),
            center_of_mass.within(POINT_LIMIT as int),
        ensures
            self@.torque_representable(center_of_mass),
            self@.torque_about(center_of_mass).within(TORQUE_LIMIT as int),
    {
        let arm = self.global_point@.minus(center_of_mass);
        lemma_cross_within(arm, self.global_vector@, 2 * POINT_LIMIT, FORCE_LIMIT as int);
        assert(2 * ((2 * POINT_LIMIT) * FORCE_LIMIT) == TORQUE_LIMIT);
    }
}

/// The mathematical content of each sample of `samples`, in order.
pub open spec fn sample_views(samples: Seq<AbstractForce>) -> Seq<ForceSample> {
    Seq::new(samples.len(), |i: int| samples[i]@)
}

/// One sample of no force for each engine of `engines`.
pub fn create_force_entries(engines: &Vec<EngineLocation>) -> (entries: Vec<AbstractForce>)
    ensures
        entries@.len() == engines@.len(),
        forall|i: int| 0 <= i < entries@.len() ==> (#[trigger] entries@[i])@ == ForceSample::zero(),
{
    let mut entries: Vec<AbstractForce> = Vec::new();
    let mut index: usize = 0;
    while index < engines.len()
        invariant
            index <= engines@.len(),
            entries@.len() == index,
            forall|i: int| 0 <= i < entries@.len() ==> (#[trigger] entries@[i])@ == ForceSample::zero(),
        decreases engines@.len() - index,
    {
        entries.push(AbstractForce::default());
        index += 1;
    }
    entries
}

/// The samples that are there, in order: a slot whose lookup failed is left
/// out.
pub open spec fn present(slots: Seq<Option<AbstractForce>>) -> Seq<AbstractForce>
    decreases slots.len(),
{
    if slots.len() == 0 {
        Seq::empty()
    } else {
        match slots.last() {
            Some(sample) => present(slots.drop_last()).push(sample),
            None => present(slots.drop_last()),
        }
    }
}

/// Collects the samples that are there and skips the slots whose lookup
/// failed.
pub fn present_samples(slots: &Vec<Option<AbstractForce>>) -> (samples: Vec<AbstractForce>)
    ensures
        samples@ == present(slots@),
{
    let mut samples: Vec<AbstractForce> = Vec::new();
    let mut index: usize = 0;
    while index < slots.len()
        invariant
            index <= slots@.len(),
            samples@ == present(slots@.take(index as int)),
        decreases slots@.len() - index,
    {
        proof {
            assert(slots@.take(index + 1).drop_last() == slots@.take(index as int));
        }
        match slots[index] {
            Some(sample) => {
                samples.push(sample);
            },
            None => {},
        }
        index += 1;
    }
    proof {
        assert(slots@.take(index as int) == slots@);
    }
    samples
}

/// Up to `SAMPLE_LIMIT` well-formed samples can be summed about every point
/// within `POINT_LIMIT`.
pub proof fn lemma_sum_within(samples: Seq<AbstractForce>, center_of_mass: Vector)
    requires
        samples.len() <= SAMPLE_LIMIT,
        forall|i: int| 0 <= i < samples.len() ==> (#[trigger] samples[i]).wf(),
        center_of_mass.within(POINT_LIMIT as int),
    ensures
        sum_representable(sample_views(samples), center_of_mass),
{
    let views = sample_views(samples);
    assert forall|i: int| 0 <= i < views.len() implies {
        &&& (#[trigger] views[i]).torque_representable(center_of_mass)
        &&& views[i].force_vector.within(FORCE_LIMIT as int)
        &&& views[i].torque_about(center_of_mass).within(TORQUE_LIMIT as int)
    } by {
        samples[i].lemma_torque_within(center_of_mass);
    }
    assert forall|k: int| 0 <= k <= views.len() implies {
        &&& net_force(#[trigger] views.take(k)).representable()
        &&& net_torque(views.take(k), center_of_mass).representable()
    } by {
        let first = views.take(k);
        assert forall|i: int| 0 <= i < first.len() implies {
            &&& (#[trigger] first[i]).force_vector.within(FORCE_LIMIT as int)
            &&& first[i].torque_about(center_of_mass).within(TORQUE_LIMIT as int)
        } by {
            assert(first[i] == views[i]);
        }
        lemma_net_within(first, center_of_mass, FORCE_LIMIT as int, TORQUE_LIMIT as int);
    }
}

/// Sums `samples`, from the first to the last, into the net force and the net
/// torque about `center_of_mass`, where the sums fit in 128 bits.
pub fn compose(samples: &Vec<AbstractForce>, center_of_mass: Vec3) -> (net: NetForce)
    requires
        sum_representable(sample_views(samples@), center_of_mass@),
    ensures
        net@ == net_wrench(sample_views(samples@), center_of_mass@),
{
    let ghost views = sample_views(samples@);
    let mut force = Vec3::zero();
    let mut torque = Vec3::zero();
    let mut index: usize = 0;
    while index < samples.len()
        invariant
            index <= samples@.len(),
            views == sample_views(samples@),
            sum_representable(views, center_of_mass@),
            force@ == net_force(views.take(index as int)),
            torque@ == net_torque(views.take(index as int), center_of_mass@),
        decreases samples@.len() - index,
    {
        let sample = samples[index];
        proof {
            assert(views[index as int] == sample@);
            assert(views.take(index + 1).drop_last() == views.take(index as int));
            assert(views.take(index + 1).last() == sample@);
        }
        let wrench = sample.to_external_force(center_of_mass);
        force = force.plus(wrench.force);
        torque = torque.plus(wrench.torque);
        index += 1;
    }
    proof {
        assert(views.take(index as int) == views);
    }
    NetForce { force, torque }
}

/// Sums the samples that are there into the net force and the net torque about
/// `center_of_mass`, where the sums fit in 128 bits.  A slot whose lookup
/// failed adds nothing.
pub fn compose_present(slots: &Vec<Option<AbstractForce>>, center_of_mass: Vec3) -> (net: NetForce)
    requires
        sum_representable(sample_views(present(slots@)), center_of_mass@),
    ensures
        net@ == net_wrench(sample_views(present(slots@)), center_of_mass@),
{
    let samples = present_samples(slots);
    compose(&samples, center_of_mass)
}

} // verus!
