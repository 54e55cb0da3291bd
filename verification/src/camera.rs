//! The two cameras of the adapter, reduced to what the adapter reads and
//! sets: where the eye is and what it looks at.

use vstd::prelude::*;
use crate::math::Point;

verus! {

/// How a camera is steered.
#[derive(Clone, Copy, Debug, PartialEq, Eq)]
pub enum CameraKind {
    /// Orbits around the point it looks at.
    ArcBall,
    /// Walks through the scene.
    FirstPerson,
}

/// A camera: its kind, the position of the eye and the point looked at.
#[derive(Clone, Copy, Debug, PartialEq, Eq)]
pub struct Camera {
    pub kind: CameraKind,
    pub eye: Point,
    pub at: Point,
}

impl Camera {
    pub fn new(kind: CameraKind, eye: Point, at: Point) -> (camera: Camera)
        ensures
            camera == (Camera { kind, eye, at }),
    {
        Camera { kind, eye, at }
    }

    /// Position of the eye.
    pub fn eye(&self) -> (eye: Point)
        ensures
            eye == self.eye,
    {
        self.eye
    }

    /// The point the camera looks at.
    pub fn at(&self) -> (at: Point)
        ensures
            at == self.at,
    {
        self.at
    }

    /// Moves the eye to `eye` and turns it towards `at`, at once.
    pub fn look_at_z(&mut self, eye: Point, at: Point)
        ensures
            *final(self) == (Camera { kind: old(self).kind, eye, at }),
    {
        self.eye = eye;
        self.at = at;
    }
}

} // verus!
