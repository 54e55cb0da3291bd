//! What the adapter reads of a simulated rigid body.

use vstd::prelude::*;
use crate::math::Isometry;
use crate::math::Point;
use crate::shape::Shape;

verus! {

/// The part of a body's state that changes from frame to frame.
#[derive(Clone, Copy, Debug, PartialEq, Eq)]
pub struct BodyState {
    /// Pose of the body in the world.
    pub position: Isometry,
    pub center_of_mass: Point,
}

/// A snapshot of a rigid body.
///
/// `key` identifies the body: two snapshots describe the same body exactly
/// when their keys are equal, whatever the other fields hold.
#[derive(Debug, PartialEq, Eq)]
pub struct Body {
    pub key: u64,
    pub state: BodyState,
    /// Distance by which collision detection inflates the shape.
    pub margin: i32,
    /// False for a static body.
    pub can_move: bool,
    pub shape: Shape,
}

} // verus!
