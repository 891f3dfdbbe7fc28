//! What holds of every tick, whatever the ship, the pose and the input.

use vstd::prelude::*;
use crate::control::{ControlType, InputState};
use crate::force::{
    net_force, net_torque, net_wrench, present, AbstractForce, ForceSample, FORCE_LIMIT,
};
use crate::pose::{lemma_rotate_scaled, lemma_rotate_units, BodyPose, Frame};
use crate::render::{arrow_representable, degenerate};
use crate::ship::{Mount, ShipLayout};
use crate::simulator::{sample, ship_samples, world_direction, ShipForces};
use crate::vector::{
    lemma_cross_of_multiples, lemma_cross_zero, lemma_negated_norm, lemma_norm_zero,
    lemma_scaled_norm, lemma_scaled_within, Vector,
};

verus! {

/// The direction table: each binding pushes along its own local axis, turned
/// into world space with the body.
pub proof fn law_direction_follows_the_body(binding: ControlType, frame: Frame)
    ensures
        world_direction(binding, frame) == match binding {
            ControlType::Accelerate => frame.y_axis,
            ControlType::PitchUp => frame.z_axis.negated(),
            ControlType::PitchDown => frame.z_axis,
            ControlType::YawLeft => frame.x_axis.negated(),
            ControlType::YawRight => frame.x_axis,
        },
        frame.is_orthonormal() ==> world_direction(binding, frame).norm_squared() == 1,
{
    lemma_rotate_units(frame);
    lemma_negated_norm(frame.x_axis);
    lemma_negated_norm(frame.z_axis);
}

/// Thrust is all or nothing.  A mount whose key is held pushes along its
/// world direction with a force whose length is the length of that direction
/// times the engine's thrust: exactly the thrust when the body's frame is
/// orthonormal.  A mount whose key is released exerts no force.  Either way
/// the force is applied where the mount currently is.
pub proof fn law_thrust_is_all_or_nothing(mount: Mount, pose: BodyPose, input: InputState)
    ensures
        sample(mount, pose, input).application_point == pose.position.plus(
            pose.frame.rotate(mount.offset),
        ),
        mount.binding.active(input) ==> {
            &&& sample(mount, pose, input).force_vector == world_direction(
                mount.binding,
                pose.frame,
            ).scaled(mount.thrust)
            &&& sample(mount, pose, input).force_vector.norm_squared() == mount.thrust
                * mount.thrust * world_direction(mount.binding, pose.frame).norm_squared()
            &&& pose.frame.is_orthonormal() ==> sample(mount, pose, input).force_vector.norm_squared()
                == mount.thrust * mount.thrust
        },
        !mount.binding.active(input) ==> sample(mount, pose, input).force_vector == Vector::zero(),
{
    let direction = world_direction(mount.binding, pose.frame);
    lemma_scaled_norm(direction, mount.thrust);
    law_direction_follows_the_body(mount.binding, pose.frame);
    if pose.frame.is_orthonormal() {
        assert(mount.thrust * mount.thrust * 1 == mount.thrust * mount.thrust) by (nonlinear_arith);
    }
}

/// A key takes effect in the very tick in which it is held or released,
/// whatever the input was before.  With the key held the mount bound to it
/// pushes, and the force is not zero if the engine has thrust and the body's
/// frame is orthonormal.  With the key released the force is zero.
pub proof fn law_toggle_takes_effect_at_once(mount: Mount, pose: BodyPose, before: InputState)
    ensures
        sample(
            mount,
            pose,
            before.with_key(mount.binding.bound_key(), true),
        ).force_vector == world_direction(mount.binding, pose.frame).scaled(mount.thrust),
        mount.thrust != 0 && pose.frame.is_orthonormal() ==> sample(
            mount,
            pose,
            before.with_key(mount.binding.bound_key(), true),
        ).force_vector != Vector::zero(),
        sample(mount, pose, before.with_key(mount.binding.bound_key(), false)).force_vector
            == Vector::zero(),
{
    let held = before.with_key(mount.binding.bound_key(), true);
    law_thrust_is_all_or_nothing(mount, pose, held);
    let force = sample(mount, pose, held).force_vector;
    lemma_norm_zero(force);
    if mount.thrust != 0 && pose.frame.is_orthonormal() {
        assert(mount.thrust * mount.thrust != 0) by (nonlinear_arith)
            requires
                mount.thrust != 0,
        ;
    }
}

/// A mount that sits on its own thrust axis, as a drive in the tail does,
/// turns nothing: whether or not it fires, its force has no torque about the
/// body's position.
pub proof fn law_axial_mount_exerts_no_torque(
    mount: Mount,
    pose: BodyPose,
    input: InputState,
    distance: int,
)
    requires
        mount.offset == mount.binding.local_axis().scaled(distance),
    ensures
        sample(mount, pose, input).torque_about(pose.position) == Vector::zero(),
{
    let direction = world_direction(mount.binding, pose.frame);
    let arm = sample(mount, pose, input).application_point.minus(pose.position);
    lemma_rotate_scaled(pose.frame, mount.binding.local_axis(), distance);
    assert(arm == direction.scaled(distance));
    if mount.binding.active(input) {
        lemma_cross_of_multiples(direction, distance, mount.thrust);
    } else {
        lemma_cross_zero(arm);
    }
}

/// Samples without force sum to no force and no torque.
pub proof fn lemma_forceless_samples_sum_to_zero(samples: Seq<ForceSample>, center_of_mass: Vector)
    requires
        forall|i: int| 0 <= i < samples.len() ==> (#[trigger] samples[i]).force_vector == Vector::zero(),
    ensures
        net_force(samples) == Vector::zero(),
        net_torque(samples, center_of_mass) == Vector::zero(),
    decreases samples.len(),
{
    if samples.len() > 0 {
        lemma_forceless_samples_sum_to_zero(samples.drop_last(), center_of_mass);
        let last = samples[samples.len() - 1];
        lemma_cross_zero(last.application_point.minus(center_of_mass));
    }
}

/// With no control held the ship exerts no force and no torque, whatever its
/// pose: every sample is without force, and so is their sum.
pub proof fn law_idle_ship_exerts_nothing(ship: ShipLayout, pose: BodyPose, input: InputState)
    requires
        input.idle(),
    ensures
        forall|i: int|
            0 <= i < ship_samples(ship, pose, input).len() ==> (#[trigger] ship_samples(
                ship,
                pose,
                input,
            )[i]).force_vector == Vector::zero(),
        net_wrench(ship_samples(ship, pose, input), pose.center_of_mass).force == Vector::zero(),
        net_wrench(ship_samples(ship, pose, input), pose.center_of_mass).torque == Vector::zero(),
{
    lemma_forceless_samples_sum_to_zero(ship_samples(ship, pose, input), pose.center_of_mass);
}

/// Taking one sample out of a sequence takes its force and its torque out of
/// the sums.
pub proof fn lemma_net_without(samples: Seq<ForceSample>, index: int, center_of_mass: Vector)
    requires
        0 <= index < samples.len(),
    ensures
        net_force(samples) == net_force(samples.remove(index)).plus(samples[index].force_vector),
        net_torque(samples, center_of_mass) == net_torque(
            samples.remove(index),
            center_of_mass,
        ).plus(samples[index].torque_about(center_of_mass)),
    decreases samples.len(),
{
    if index == samples.len() - 1 {
        assert(samples.remove(index) == samples.drop_last());
    } else {
        lemma_net_without(samples.drop_last(), index, center_of_mass);
        assert(samples.remove(index).drop_last() == samples.drop_last().remove(index));
        assert(samples.remove(index).last() == samples.last());
    }
}

/// The net force and the net torque do not depend on the order in which the
/// samples are summed: two sequences that hold the same samples, each as often
/// as the other, have the same sums.
pub proof fn law_net_is_independent_of_order(
    first: Seq<ForceSample>,
    second: Seq<ForceSample>,
    center_of_mass: Vector,
)
    requires
        first.to_multiset() == second.to_multiset(),
    ensures
        net_wrench(first, center_of_mass) == net_wrench(second, center_of_mass),
    decreases first.len(),
{
    broadcast use vstd::seq_lib::group_to_multiset_ensures;

    if first.len() == 0 {
        assert(second.to_multiset().len() == 0);
        assert(second.len() == 0);
    } else {
        let moved = first.last();
        assert(first.to_multiset().count(moved) > 0);
        assert(second.contains(moved));
        let index = choose|i: int| 0 <= i < second.len() && second[i] == moved;
        assert(first.drop_last() == first.remove(first.len() - 1));
        assert(first.drop_last().to_multiset() == second.remove(index).to_multiset());
        law_net_is_independent_of_order(first.drop_last(), second.remove(index), center_of_mass);
        lemma_net_without(second, index, center_of_mass);
    }
}

/// A sample without force adds nothing to the net force or the net torque.
pub proof fn law_forceless_sample_adds_nothing(
    samples: Seq<ForceSample>,
    extra: ForceSample,
    center_of_mass: Vector,
)
    requires
        extra.force_vector == Vector::zero(),
    ensures
        net_wrench(samples.push(extra), center_of_mass) == net_wrench(samples, center_of_mass),
{
    assert(samples.push(extra).drop_last() == samples);
    lemma_cross_zero(extra.application_point.minus(center_of_mass));
}

/// A slot whose lookup failed adds nothing: the samples that are present are
/// the same with and without it.
pub proof fn law_missing_slot_is_skipped(slots: Seq<Option<AbstractForce>>, index: int)
    requires
        0 <= index < slots.len(),
        slots[index] is None,
    ensures
        present(slots) == present(slots.remove(index)),
    decreases slots.len(),
{
    if index == slots.len() - 1 {
        assert(slots.remove(index) == slots.drop_last());
    } else {
        law_missing_slot_is_skipped(slots.drop_last(), index);
        assert(slots.remove(index).drop_last() == slots.drop_last().remove(index));
        assert(slots.remove(index).last() == slots.last());
    }
}

/// A tick has no memory: whatever was computed before, two ticks with the same
/// ship, pose and input yield the same samples and the same net force and
/// torque.
pub proof fn law_tick_is_repeatable(
    first: ShipForces,
    second: ShipForces,
    ship: ShipLayout,
    pose: BodyPose,
    input: InputState,
)
    requires
        first.is_tick_of(ship, pose, input),
        second.is_tick_of(ship, pose, input),
    ensures
        first.net == second.net,
        first.drive == second.drive,
        first.thrusters@ == second.thrusters@,
{
    assert(first.thrusters@ =~= second.thrusters@);
}

/// Whatever a tick yields can be drawn: a well-formed sample has an arrow at
/// every scale of 32 bits.
pub proof fn law_valid_samples_can_be_drawn(sample: AbstractForce, scale: i32)
    requires
        sample.wf(),
    ensures
        arrow_representable(sample@, scale as int),
{
    lemma_scaled_within(
        sample.global_vector@,
        scale as int,
        FORCE_LIMIT as int,
        -(i32::MIN as int),
    );
}

/// An arrow is left out exactly when the scaled force is zero; at a scale
/// other than zero, exactly when the sample is without force.
pub proof fn law_arrow_is_drawn_for_every_force(sample: ForceSample, scale: int)
    ensures
        degenerate(sample, scale) <==> sample.force_vector.scaled(scale) == Vector::zero(),
        scale != 0 ==> (degenerate(sample, scale) <==> sample.force_vector == Vector::zero()),
{
    let force = sample.force_vector;
    if scale != 0 {
        assert(force.x * scale == 0 <==> force.x == 0) by (nonlinear_arith)
            requires
                scale != 0,
        ;
        assert(force.y * scale == 0 <==> force.y == 0) by (nonlinear_arith)
            requires
                scale != 0,
        ;
        assert(force.z * scale == 0 <==> force.z == 0) by (nonlinear_arith)
            requires
                scale != 0,
        ;
    }
}

} // verus!
