//! Discrete control inputs and the bindings that tie a mount to one of them.

use vstd::prelude::*;
use crate::vector::{Vec3, Vector};

verus! {

/// A key the ship listens to.
#[derive(Clone, Copy, Debug, PartialEq, Eq, Structural)]
pub enum Key {
    W,
    A,
    S,
    D,
    Space,
}

/// Which keys are held during the current tick.
///
/// The state is sampled anew every tick; nothing of an earlier tick is kept.
#[derive(Clone, Copy, Debug, PartialEq, Eq, Structural)]
pub struct InputState {
    pub w: bool,
    pub a: bool,
    pub s: bool,
    pub d: bool,
    pub space: bool,
}

impl InputState {
    /// Whether `key` is held.
    pub open spec fn held(self, key: Key) -> bool {
        match key {
            Key::W => self.w,
            Key::A => self.a,
            Key::S => self.s,
            Key::D => self.d,
            Key::Space => self.space,
        }
    }

    /// No key is held.
    pub open spec fn idle(self) -> bool {
        !self.w && !self.a && !self.s && !self.d && !self.space
    }

    /// This state with `key` set to `held` and every other key unchanged.
    pub open spec fn with_key(self, key: Key, held: bool) -> InputState {
        match key {
            Key::W => InputState { w: held, ..self },
            Key::A => InputState { a: held, ..self },
            Key::S => InputState { s: held, ..self },
            Key::D => InputState { d: held, ..self },
            Key::Space => InputState { space: held, ..self },
        }
    }

    /// The state in which every key is released.
    pub fn released() -> (input: InputState)
        ensures
            input.idle(),
    {
        InputState { w: false, a: false, s: false, d: false, space: false }
    }

    /// Whether no key is held.
    pub fn is_idle(&self) -> (idle: bool)
        ensures
            idle == self.idle(),
    {
        !self.w && !self.a && !self.s && !self.d && !self.space
    }

    /// Whether `key` is held.
    pub fn is_held(&self, key: Key) -> (held: bool)
        ensures
            held == self.held(key),
    {
        match key {
            Key::W => self.w,
            Key::A => self.a,
            Key::S => self.s,
            Key::D => self.d,
            Key::Space => self.space,
        }
    }

    /// Records that `key` is now held (`held == true`) or released.
    pub fn set(&mut self, key: Key, held: bool)
        ensures
            *final(self) == old(self).with_key(key, held),
    {
        match key {
            Key::W => {
                self.w = held;
            },
            Key::A => {
                self.a = held;
            },
            Key::S => {
                self.s = held;
            },
            Key::D => {
                self.d = held;
            },
            Key::Space => {
                self.space = held;
            },
        }
    }
}

/// The control a mount responds to.
///
/// | binding      | key   | body-local thrust axis |
/// |--------------|-------|------------------------|
/// | `Accelerate` | Space | `+Y`                   |
/// | `PitchUp`    | W     | `-Z`                   |
/// | `PitchDown`  | S     | `+Z`                   |
/// | `YawLeft`    | A     | `-X`                   |
/// | `YawRight`   | D     | `+X`                   |
#[derive(Clone, Copy, Debug, PartialEq, Eq, Structural)]
pub enum ControlType {
    PitchUp,
    PitchDown,
    YawLeft,
    YawRight,
    Accelerate,
}

impl ControlType {
    /// The key that fires a mount with this binding.
    pub open spec fn bound_key(self) -> Key {
        match self {
            ControlType::PitchUp => Key::W,
            ControlType::PitchDown => Key::S,
            ControlType::YawLeft => Key::A,
            ControlType::YawRight => Key::D,
            ControlType::Accelerate => Key::Space,
        }
    }

    /// The direction, in the body's own frame, along which a mount with this
    /// binding pushes.
    pub open spec fn local_axis(self) -> Vector {
        match self {
            ControlType::PitchUp => Vector::unit_z().negated(),
            ControlType::PitchDown => Vector::unit_z(),
            ControlType::YawLeft => Vector::unit_x().negated(),
            ControlType::YawRight => Vector::unit_x(),
            ControlType::Accelerate => Vector::unit_y(),
        }
    }

    /// Whether a mount with this binding fires under `input`.
    pub open spec fn active(self, input: InputState) -> bool {
        input.held(self.bound_key())
    }

    /// The key that fires a mount with this binding.
    pub fn key(&self) -> (key: Key)
        ensures
            key == self.bound_key(),
    {
        match self {
            ControlType::PitchUp => Key::W,
            ControlType::PitchDown => Key::S,
            ControlType::YawLeft => Key::A,
            ControlType::YawRight => Key::D,
            ControlType::Accelerate => Key::Space,
        }
    }

    /// The direction, in the body's own frame, along which a mount with this
    /// binding pushes.
    pub fn axis(&self) -> (axis: Vec3)
        ensures
            axis@ == self.local_axis(),
    {
        match self {
            ControlType::PitchUp => Vec3::new(0, 0, -1),
            ControlType::PitchDown => Vec3::new(0, 0, 1),
            ControlType::YawLeft => Vec3::new(-1, 0, 0),
            ControlType::YawRight => Vec3::new(1, 0, 0),
            ControlType::Accelerate => Vec3::new(0, 1, 0),
        }
    }

    /// Whether a mount with this binding fires under `input`.
    pub fn is_active(&self, input: &InputState) -> (active: bool)
        ensures
            active == self.active(*input),
    {
        input.is_held(self.key())
    }
}

} // verus!
