//! Force and torque composition for a keyboard-controlled rigid-body ship.
//!
//! A ship carries a main drive and a set of directional thrusters, each mounted
//! at a fixed offset and bound to one control.  Every tick the held controls and
//! the body's pose are turned into one force sample per mount, and the samples
//! are summed into the net force and the net torque about the centre of mass.
//!
//! All quantities are exact integers.  Nothing in the arithmetic depends on a
//! unit: callers that start from real-valued data pick a fixed-point unit for
//! lengths and one for the body's axes, scale their inputs by them and scale
//! the results back.
//!
//! * `vector`: integer vectors and their algebra.
//! * `control`: keys, the input state and the bindings of mounts to keys.
//! * `keyboard`: reading the input state off the keyboard resource.
//! * `pose`: position, orientation and centre of mass of the body.
//! * `ship`: engines, mounts, the ship's layout and its validation.
//! * `force`: force samples and their composition.
//! * `simulator`: the tick, from layout, pose and input to forces.
//! * `render`: the arrows that show the forces.
//! * `laws`: what holds of every tick.

pub mod vector;
pub mod control;
pub mod keyboard;
pub mod pose;
pub mod ship;
pub mod force;
pub mod simulator;
pub mod render;
pub mod laws;
