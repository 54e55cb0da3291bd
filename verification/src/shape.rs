//! Collision shapes: eight kinds of leaf and the compound that nests them.

use vstd::prelude::*;
use crate::math::Isometry;
use crate::math::Point;
use crate::math::Vector;

verus! {

/// The collision shape of a body.
#[derive(Debug, PartialEq, Eq)]
pub enum Shape {
    Plane { normal: Vector },
    Ball { radius: i32 },
    Cuboid { half_extents: Vector },
    Cylinder { half_height: i32, radius: i32 },
    Cone { half_height: i32, radius: i32 },
    Convex { points: Vec<Point> },
    Mesh { vertices: Vec<Point>, indices: Vec<u32> },
    BezierSurface { control_points: Vec<Point>, nupoints: usize, nvpoints: usize },
    Compound { parts: Vec<Part> },
}

/// One member of a compound: a shape and where it sits in the compound.
#[derive(Debug, PartialEq, Eq)]
pub struct Part {
    pub local: Isometry,
    pub shape: Shape,
}

/// A leaf shape together with the transforms that lead to it.
pub struct Leaf {
    pub frame: Seq<Isometry>,
    pub shape: Shape,
}

impl Shape {
    /// Number of leaf shapes in the tree; a compound counts only through its
    /// members.
    pub open spec fn leaf_count(self) -> nat
        decreases self,
    {
        match self {
            Shape::Compound { parts } => Shape::leaf_count_of(parts@),
            _ => 1,
        }
    }

    pub open spec fn leaf_count_of(parts: Seq<Part>) -> nat
        decreases parts,
    {
        if parts.len() == 0 {
            0
        } else {
            Shape::leaf_count_of(parts.drop_last()) + parts.last().shape.leaf_count()
        }
    }

    /// The leaves of the tree in depth-first order, each with the frame that
    /// `delta` becomes on the way down to it.
    pub open spec fn leaves(self, delta: Seq<Isometry>) -> Seq<Leaf>
        decreases self,
    {
        match self {
            Shape::Compound { parts } => Shape::leaves_of(parts@, delta),
            _ => seq![Leaf { frame: delta, shape: self }],
        }
    }

    pub open spec fn leaves_of(parts: Seq<Part>, delta: Seq<Isometry>) -> Seq<Leaf>
        decreases parts,
    {
        if parts.len() == 0 {
            Seq::empty()
        } else {
            Shape::leaves_of(parts.drop_last(), delta) + parts.last().shape.leaves(
                delta.push(parts.last().local),
            )
        }
    }
}

} // verus!
