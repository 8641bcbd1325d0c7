//! Per-creature components the gameplay systems update.

use vstd::prelude::*;

verus! {

use crate::vectors::Vec3;

/// The movement state of a creature: its velocity in fixed-point units per
/// second, and the cap its steering is held to elsewhere.
#[derive(Clone, Copy, Debug, PartialEq, Eq, Structural)]
pub struct Movement {
    pub velocity: Vec3,
    pub max_movement_speed: i64,
}

} // verus!
