//! A model of the rendering side: the objects a scene holds and the line
//! segments queued for the next frame.
//!
//! The scene hands out one handle per object it creates and never reuses a
//! handle.  An object stays attached until it is removed; removing it again
//! changes nothing.

use vstd::prelude::*;
use crate::math::Color;
use crate::math::Frame;
use crate::math::Isometry;
use crate::math::Point;
use crate::math::Rotation;
use crate::math::Vector;
use crate::math::ONE;

verus! {

/// Three vertex indices that form one face of a mesh.
#[derive(Clone, Copy, Debug, PartialEq, Eq)]
pub struct Triangle {
    pub a: u32,
    pub b: u32,
    pub c: u32,
}

/// One of the three basis directions of a frame.
#[derive(Clone, Copy, Debug, PartialEq, Eq)]
pub enum Axis {
    X,
    Y,
    Z,
}

/// A line segment that starts at `origin` and runs for `length` along `axis`
/// as turned by `orientation`.  Segments last for one frame.
#[derive(Clone, Copy, Debug, PartialEq, Eq)]
pub struct Segment {
    pub origin: Point,
    pub orientation: Rotation,
    pub axis: Axis,
    pub length: i32,
    pub color: Color,
}

/// What a scene object looks like, with every dimension final.
#[derive(Debug, PartialEq, Eq)]
pub enum Geometry {
    Plane { normal: Vector },
    Sphere { radius: i64 },
    Cuboid { half_x: i64, half_y: i64, half_z: i64 },
    Cylinder { radius: i64, height: i64 },
    Cone { radius: i64, height: i64 },
    /// The convex hull of `points`.
    Convex { points: Vec<Point> },
    Mesh { vertices: Vec<Point>, triangles: Vec<Triangle> },
    BezierSurface { control_points: Vec<Point>, nupoints: usize, nvpoints: usize },
}

/// The mathematical content of a [`Geometry`].
pub enum GeometryView {
    Plane { normal: Vector },
    Sphere { radius: int },
    Cuboid { half_x: int, half_y: int, half_z: int },
    Cylinder { radius: int, height: int },
    Cone { radius: int, height: int },
    Convex { points: Seq<Point> },
    Mesh { vertices: Seq<Point>, triangles: Seq<Triangle> },
    BezierSurface { control_points: Seq<Point>, nupoints: int, nvpoints: int },
}

impl View for Geometry {
    type V = GeometryView;

    open spec fn view(&self) -> GeometryView {
        match *self {
            Geometry::Plane { normal } => GeometryView::Plane { normal },
            Geometry::Sphere { radius } => GeometryView::Sphere { radius: radius as int },
            Geometry::Cuboid { half_x, half_y, half_z } => GeometryView::Cuboid {
                half_x: half_x as int,
                half_y: half_y as int,
                half_z: half_z as int,
            },
            Geometry::Cylinder { radius, height } => GeometryView::Cylinder {
                radius: radius as int,
                height: height as int,
            },
            Geometry::Cone { radius, height } => GeometryView::Cone {
                radius: radius as int,
                height: height as int,
            },
            Geometry::Convex { points } => GeometryView::Convex { points: points@ },
            Geometry::Mesh { vertices, triangles } => GeometryView::Mesh {
                vertices: vertices@,
                triangles: triangles@,
            },
            Geometry::BezierSurface { control_points, nupoints, nvpoints } => {
                GeometryView::BezierSurface {
                    control_points: control_points@,
                    nupoints: nupoints as int,
                    nvpoints: nvpoints as int,
                }
            },
        }
    }
}

/// A node of the scene graph: its handle, its geometry, and how it is shown.
#[derive(Debug, PartialEq, Eq)]
pub struct SceneNode {
    handle: usize,
    geometry: Geometry,
    color: Color,
    transformation: Frame,
}

/// The mathematical content of a [`SceneNode`].
pub struct SceneNodeView {
    pub handle: int,
    pub geometry: GeometryView,
    pub color: Color,
    pub transformation: Seq<Isometry>,
}

impl View for SceneNode {
    type V = SceneNodeView;

    closed spec fn view(&self) -> SceneNodeView {
        SceneNodeView {
            handle: self.handle as int,
            geometry: self.geometry@,
            color: self.color,
            transformation: self.transformation@,
        }
    }
}

impl SceneNode {
    /// The handle under which the scene knows this object.
    pub fn handle(&self) -> (h: usize)
        ensures
            h == self@.handle,
    {
        self.handle
    }

    pub fn geometry(&self) -> (g: &Geometry)
        ensures
            g@ == self@.geometry,
    {
        &self.geometry
    }

    /// The color the object is shown in.
    pub fn color(&self) -> (c: Color)
        ensures
            c == self@.color,
    {
        self.color
    }

    /// Where the object stands, as a product of transforms.
    pub fn transformation(&self) -> (f: &Frame)
        ensures
            f@ == self@.transformation,
    {
        &self.transformation
    }

    pub fn set_color(&mut self, color: Color)
        ensures
            final(self)@ == (SceneNodeView { color, ..old(self)@ }),
    {
        self.color = color;
    }

    pub fn set_local_transformation(&mut self, transformation: Frame)
        ensures
            final(self)@ == (SceneNodeView { transformation: transformation@, ..old(self)@ }),
    {
        self.transformation = transformation;
    }
}

/// The scene: which handles are attached, and the segments queued for the
/// next frame.
#[derive(Debug, PartialEq, Eq)]
pub struct Scene {
    slots: Vec<bool>,
    segments: Vec<Segment>,
}

/// The mathematical content of a [`Scene`]: `slots[h]` tells whether the
/// object with handle `h` is attached.
#[verifier::ext_equal]
pub struct SceneView {
    pub slots: Seq<bool>,
    pub segments: Seq<Segment>,
}

impl SceneView {
    /// Number of handles given out so far; the next object gets this handle.
    pub open spec fn issued(self) -> int {
        self.slots.len() as int
    }

    pub open spec fn is_attached(self, handle: int) -> bool {
        0 <= handle < self.slots.len() && self.slots[handle]
    }

    /// The scene after it has created `n` more objects.
    pub open spec fn grown(self, n: nat) -> SceneView {
        SceneView { slots: self.slots + Seq::new(n, |i: int| true), ..self }
    }

    /// The scene after the object with the given handle has been removed.
    pub open spec fn without(self, handle: int) -> SceneView {
        if 0 <= handle < self.slots.len() {
            SceneView { slots: self.slots.update(handle, false), ..self }
        } else {
            self
        }
    }

    /// The scene after every object whose handle is in `handles` has been
    /// removed.
    pub open spec fn without_all(self, handles: Set<int>) -> SceneView {
        SceneView {
            slots: Seq::new(self.slots.len(), |h: int| self.slots[h] && !handles.contains(h)),
            ..self
        }
    }

    /// Number of attached objects.
    pub open spec fn population(self) -> nat {
        Scene::count_true(self.slots)
    }
}

impl View for Scene {
    type V = SceneView;

    closed spec fn view(&self) -> SceneView {
        SceneView { slots: self.slots@, segments: self.segments@ }
    }
}

impl Scene {
    pub open spec fn count_true(slots: Seq<bool>) -> nat
        decreases slots.len(),
    {
        if slots.len() == 0 {
            0
        } else {
            Scene::count_true(slots.drop_last()) + if slots.last() {
                1nat
            } else {
                0nat
            }
        }
    }

    /// An empty scene.
    pub fn new() -> (scene: Scene)
        ensures
            scene@.slots == Seq::<bool>::empty(),
            scene@.segments == Seq::<Segment>::empty(),
    {
        Scene { slots: Vec::new(), segments: Vec::new() }
    }

    /// Creates an object with the given geometry, white and at the origin,
    /// and attaches it.
    pub fn add(&mut self, geometry: Geometry) -> (node: SceneNode)
        ensures
            node@ == (SceneNodeView {
                handle: old(self)@.issued(),
                geometry: geometry@,
                color: Color { r: ONE, g: ONE, b: ONE },
                transformation: Seq::empty(),
            }),
            final(self)@.slots == old(self)@.slots.push(true),
            final(self)@.segments == old(self)@.segments,
    {
        let handle = self.slots.len();
        self.slots.push(true);
        SceneNode {
            handle,
            geometry,
            color: Color { r: ONE, g: ONE, b: ONE },
            transformation: Frame::identity(),
        }
    }

    /// Detaches the object; does nothing if it is not attached.
    pub fn remove(&mut self, object: &SceneNode)
        ensures
            final(self)@ == old(self)@.without(object@.handle),
    {
        if object.handle < self.slots.len() {
            self.slots.set(object.handle, false);
        }
    }

    /// Whether the object is attached to this scene.
    pub fn contains(&self, object: &SceneNode) -> (b: bool)
        ensures
            b == self@.is_attached(object@.handle),
    {
        object.handle < self.slots.len() && self.slots[object.handle]
    }

    /// Number of attached objects.
    pub fn len(&self) -> (n: usize)
        ensures
            n == self@.population(),
    {
        let mut n: usize = 0;
        let mut i: usize = 0;
        while i < self.slots.len()
            invariant
                i <= self.slots.len(),
                n <= i,
                n == Scene::count_true(self.slots@.take(i as int)),
            decreases self.slots.len() - i,
        {
            assert(self.slots@.take(i + 1).drop_last() == self.slots@.take(i as int));
            if self.slots[i] {
                n = n + 1;
            }
            i = i + 1;
        }
        assert(self.slots@.take(i as int) == self.slots@);
        n
    }

    /// Queues a segment for the next frame.
    pub fn draw_segment(&mut self, segment: Segment)
        ensures
            final(self)@.slots == old(self)@.slots,
            final(self)@.segments == old(self)@.segments.push(segment),
    {
        self.segments.push(segment);
    }

    /// The segments queued since the last call of [`Scene::clear_segments`].
    pub fn segments(&self) -> (s: &Vec<Segment>)
        ensures
            s@ == self@.segments,
    {
        &self.segments
    }

    /// Drops the queued segments, as the end of a frame does.
    pub fn clear_segments(&mut self)
        ensures
            final(self)@.slots == old(self)@.slots,
            final(self)@.segments == Seq::<Segment>::empty(),
    {
        self.segments.clear();
    }
}

} // verus!
