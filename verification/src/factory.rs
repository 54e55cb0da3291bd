//! From a shape tree to nodes: one node per leaf, in depth-first order.
//!
//! A compound gets no node of its own.  Each of its members is visited with
//! the frame of the compound extended by the member's own transform.  A ball
//! and a box grow by the body's margin, so that what is shown is the volume
//! that collides.  A plane is placed by the body alone and ignores the frame.

use vstd::prelude::*;
use crate::body::Body;
use crate::math::Color;
use crate::math::Frame;
use crate::math::Isometry;
use crate::math::Point;
use crate::math::Vector;
use crate::node::Node;
use crate::node::NodeKind;
use crate::node::NodeView;
use crate::objects::Object;
use crate::objects::ObjectView;
use crate::scene::Geometry;
use crate::scene::GeometryView;
use crate::scene::Scene;
use crate::scene::Triangle;
use crate::shape::Leaf;
use crate::shape::Part;
use crate::shape::Shape;

verus! {

/// The views of a sequence of nodes.
pub open spec fn views(nodes: Seq<Node>) -> Seq<NodeView> {
    nodes.map_values(|n: Node| n@)
}

/// The faces of a mesh: every three consecutive indices form one, and what
/// is left over at the end forms none.
pub open spec fn triangles_of(indices: Seq<u32>) -> Seq<Triangle> {
    Seq::new(
        (indices.len() / 3) as nat,
        |t: int| Triangle { a: indices[3 * t], b: indices[3 * t + 1], c: indices[3 * t + 2] },
    )
}

/// The kind of node that shows a leaf shape.
pub open spec fn leaf_kind(shape: Shape) -> NodeKind {
    match shape {
        Shape::Plane { .. } => NodeKind::Plane,
        Shape::Ball { .. } => NodeKind::Ball,
        Shape::Cuboid { .. } => NodeKind::Box,
        Shape::Cylinder { .. } => NodeKind::Cylinder,
        Shape::Cone { .. } => NodeKind::Cone,
        Shape::Convex { .. } => NodeKind::Convex,
        Shape::Mesh { .. } => NodeKind::Mesh,
        Shape::BezierSurface { .. } => NodeKind::BezierSurface,
        Shape::Compound { .. } => arbitrary(),
    }
}

/// The geometry that shows a leaf shape of a body with the given margin.
pub open spec fn leaf_geometry(shape: Shape, margin: i32) -> GeometryView {
    match shape {
        Shape::Plane { normal } => GeometryView::Plane { normal },
        Shape::Ball { radius } => GeometryView::Sphere { radius: radius + margin },
        Shape::Cuboid { half_extents } => GeometryView::Cuboid {
            half_x: half_extents.x + margin,
            half_y: half_extents.y + margin,
            half_z: half_extents.z + margin,
        },
        Shape::Cylinder { half_height, radius } => GeometryView::Cylinder {
            radius: radius as int,
            height: 2 * half_height,
        },
        Shape::Cone { half_height, radius } => GeometryView::Cone {
            radius: radius as int,
            height: 2 * half_height,
        },
        Shape::Convex { points } => GeometryView::Convex { points: points@ },
        Shape::Mesh { vertices, indices } => GeometryView::Mesh {
            vertices: vertices@,
            triangles: triangles_of(indices@),
        },
        Shape::BezierSurface { control_points, nupoints, nvpoints } => GeometryView::BezierSurface {
            control_points: control_points@,
            nupoints: nupoints as int,
            nvpoints: nvpoints as int,
        },
        Shape::Compound { .. } => arbitrary(),
    }
}

/// The frame a leaf keeps: the one it was reached with, except for a plane,
/// which keeps none.
pub open spec fn leaf_delta(leaf: Leaf) -> Seq<Isometry> {
    if leaf.shape is Plane {
        Seq::empty()
    } else {
        leaf.frame
    }
}

/// The node made for one leaf of `body`, shown by the scene node `handle`.
pub open spec fn leaf_node(body: Body, leaf: Leaf, color: Color, handle: int) -> NodeView {
    NodeView {
        kind: leaf_kind(leaf.shape),
        object: ObjectView::created(
            body.key,
            body.state,
            leaf_delta(leaf),
            leaf_geometry(leaf.shape, body.margin),
            color,
            handle,
        ),
    }
}

/// The nodes made for a run of leaves, whose scene nodes get the handles
/// `first`, `first + 1`, and so on.
pub open spec fn built(body: Body, leaves: Seq<Leaf>, color: Color, first: int) -> Seq<NodeView> {
    Seq::new(leaves.len(), |i: int| leaf_node(body, leaves[i], color, first + i))
}

/// A shape tree has as many leaves in depth-first order as `leaf_count` says.
pub proof fn lemma_leaves_len(shape: Shape, delta: Seq<Isometry>)
    ensures
        shape.leaves(delta).len() == shape.leaf_count(),
    decreases shape,
{
    match shape {
        Shape::Compound { parts } => {
            lemma_leaves_of_len(parts@, delta);
        },
        _ => {},
    }
}

pub proof fn lemma_leaves_of_len(parts: Seq<Part>, delta: Seq<Isometry>)
    ensures
        Shape::leaves_of(parts, delta).len() == Shape::leaf_count_of(parts),
    decreases parts,
{
    if parts.len() > 0 {
        lemma_leaves_of_len(parts.drop_last(), delta);
        lemma_leaves_len(parts.last().shape, delta.push(parts.last().local));
    }
}

/// Building two runs of leaves one after the other builds their
/// concatenation.
pub proof fn lemma_built_concat(body: Body, a: Seq<Leaf>, b: Seq<Leaf>, color: Color, first: int)
    ensures
        built(body, a + b, color, first) == built(body, a, color, first) + built(
            body,
            b,
            color,
            first + a.len(),
        ),
{
    assert(built(body, a + b, color, first) =~= built(body, a, color, first) + built(
        body,
        b,
        color,
        first + a.len(),
    ));
}

fn copied<T: Copy>(items: &Vec<T>) -> (copy: Vec<T>)
    ensures
        copy@ == items@,
{
    let mut copy: Vec<T> = Vec::new();
    let mut i: usize = 0;
    while i < items.len()
        invariant
            i <= items.len(),
            copy@ == items@.take(i as int),
        decreases items.len() - i,
    {
        copy.push(items[i]);
        i = i + 1;
    }
    copy
}

/// Groups a flat index buffer into faces, dropping an incomplete last group.
pub fn triangles(indices: &Vec<u32>) -> (faces: Vec<Triangle>)
    ensures
        faces@ == triangles_of(indices@),
{
    let count = indices.len() / 3;
    let mut faces: Vec<Triangle> = Vec::new();
    let mut t: usize = 0;
    while t < count
        invariant
            t <= count,
            count == indices.len() / 3,
            faces@ == triangles_of(indices@).take(t as int),
        decreases count - t,
    {
        faces.push(Triangle { a: indices[3 * t], b: indices[3 * t + 1], c: indices[3 * t + 2] });
        t = t + 1;
    }
    faces
}

fn add_plane(window: &mut Scene, body: &Body, normal: Vector, color: Color, out: &mut Vec<Node>)
    ensures
        views(final(out)@) == views(old(out)@).push(
            leaf_node(
                *body,
                Leaf { frame: Seq::empty(), shape: Shape::Plane { normal } },
                color,
                old(window)@.issued(),
            ),
        ),
        final(window)@ == old(window)@.grown(1),
{
    let object = Object::new(window, body, Frame::identity(), Geometry::Plane { normal }, color);
    out.push(Node::Plane(object));
    assert(views(out@) =~= views(old(out)@).push(out@.last()@));
}

fn add_mesh(
    window: &mut Scene,
    body: &Body,
    delta: Frame,
    vertices: &Vec<Point>,
    indices: &Vec<u32>,
    color: Color,
    out: &mut Vec<Node>,
)
    ensures
        views(final(out)@) == views(old(out)@).push(
            leaf_node(
                *body,
                Leaf { frame: delta@, shape: Shape::Mesh { vertices: *vertices, indices: *indices } },
                color,
                old(window)@.issued(),
            ),
        ),
        final(window)@ == old(window)@.grown(1),
{
    let vs = copied(vertices);
    let is = triangles(indices);
    let object = Object::new(window, body, delta, Geometry::Mesh { vertices: vs, triangles: is }, color);
    out.push(Node::Mesh(object));
    assert(views(out@) =~= views(old(out)@).push(out@.last()@));
}

fn add_bezier_surface(
    window: &mut Scene,
    body: &Body,
    delta: Frame,
    control_points: &Vec<Point>,
    nupoints: usize,
    nvpoints: usize,
    color: Color,
    out: &mut Vec<Node>,
)
    ensures
        views(final(out)@) == views(old(out)@).push(
            leaf_node(
                *body,
                Leaf {
                    frame: delta@,
                    shape: Shape::BezierSurface {
                        control_points: *control_points,
                        nupoints,
                        nvpoints,
                    },
                },
                color,
                old(window)@.issued(),
            ),
        ),
        final(window)@ == old(window)@.grown(1),
{
    let geometry = Geometry::BezierSurface {
        control_points: copied(control_points),
        nupoints,
        nvpoints,
    };
    let object = Object::new(window, body, delta, geometry, color);
    out.push(Node::BezierSurface(object));
    assert(views(out@) =~= views(old(out)@).push(out@.last()@));
}

fn add_ball(window: &mut Scene, body: &Body, delta: Frame, radius: i32, color: Color, out: &mut Vec<Node>)
    ensures
        views(final(out)@) == views(old(out)@).push(
            leaf_node(
                *body,
                Leaf { frame: delta@, shape: Shape::Ball { radius } },
                color,
                old(window)@.issued(),
            ),
        ),
        final(window)@ == old(window)@.grown(1),
{
    let margin = body.margin;
    let geometry = Geometry::Sphere { radius: radius as i64 + margin as i64 };
    let object = Object::new(window, body, delta, geometry, color);
    out.push(Node::Ball(object));
    assert(views(out@) =~= views(old(out)@).push(out@.last()@));
}

fn add_box(window: &mut Scene, body: &Body, delta: Frame, half_extents: Vector, color: Color, out: &mut Vec<Node>)
    ensures
        views(final(out)@) == views(old(out)@).push(
            leaf_node(
                *body,
                Leaf { frame: delta@, shape: Shape::Cuboid { half_extents } },
                color,
                old(window)@.issued(),
            ),
        ),
        final(window)@ == old(window)@.grown(1),
{
    let rx = half_extents.x as i64 + body.margin as i64;
    let ry = half_extents.y as i64 + body.margin as i64;
    let rz = half_extents.z as i64 + body.margin as i64;
    let geometry = Geometry::Cuboid { half_x: rx, half_y: ry, half_z: rz };
    let object = Object::new(window, body, delta, geometry, color);
    out.push(Node::Box(object));
    assert(views(out@) =~= views(old(out)@).push(out@.last()@));
}

fn add_convex(window: &mut Scene, body: &Body, delta: Frame, points: &Vec<Point>, color: Color, out: &mut Vec<Node>)
    ensures
        views(final(out)@) == views(old(out)@).push(
            leaf_node(
                *body,
                Leaf { frame: delta@, shape: Shape::Convex { points: *points } },
                color,
                old(window)@.issued(),
            ),
        ),
        final(window)@ == old(window)@.grown(1),
{
    let geometry = Geometry::Convex { points: copied(points) };
    let object = Object::new(window, body, delta, geometry, color);
    out.push(Node::Convex(object));
    assert(views(out@) =~= views(old(out)@).push(out@.last()@));
}

fn add_cylinder(
    window: &mut Scene,
    body: &Body,
    delta: Frame,
    half_height: i32,
    radius: i32,
    color: Color,
    out: &mut Vec<Node>,
)
    ensures
        views(final(out)@) == views(old(out)@).push(
            leaf_node(
                *body,
                Leaf { frame: delta@, shape: Shape::Cylinder { half_height, radius } },
                color,
                old(window)@.issued(),
            ),
        ),
        final(window)@ == old(window)@.grown(1),
{
    let r = radius as i64;
    let h = half_height as i64 * 2;
    let object = Object::new(window, body, delta, Geometry::Cylinder { radius: r, height: h }, color);
    out.push(Node::Cylinder(object));
    assert(views(out@) =~= views(old(out)@).push(out@.last()@));
}

fn add_cone(
    window: &mut Scene,
    body: &Body,
    delta: Frame,
    half_height: i32,
    radius: i32,
    color: Color,
    out: &mut Vec<Node>,
)
    ensures
        views(final(out)@) == views(old(out)@).push(
            leaf_node(
                *body,
                Leaf { frame: delta@, shape: Shape::Cone { half_height, radius } },
                color,
                old(window)@.issued(),
            ),
        ),
        final(window)@ == old(window)@.grown(1),
{
    let r = radius as i64;
    let h = half_height as i64 * 2;
    let object = Object::new(window, body, delta, Geometry::Cone { radius: r, height: h }, color);
    out.push(Node::Cone(object));
    assert(views(out@) =~= views(old(out)@).push(out@.last()@));
}

/// Appends to `out` the nodes for the leaves of `shape`, a shape of `body`
/// reached with the frame `delta`, and creates their scene nodes in `window`.
pub fn add_shape(window: &mut Scene, body: &Body, delta: Frame, shape: &Shape, color: Color, out: &mut Vec<Node>)
    ensures
        views(final(out)@) == views(old(out)@) + built(
            *body,
            shape.leaves(delta@),
            color,
            old(window)@.issued(),
        ),
        final(window)@ == old(window)@.grown(shape.leaf_count()),
    decreases shape,
{
    let ghost first = window@.issued();
    let ghost leaf = Leaf { frame: delta@, shape: *shape };
    match shape {
        Shape::Plane { normal } => {
            add_plane(window, body, *normal, color, out);
        },
        Shape::Ball { radius } => {
            add_ball(window, body, delta, *radius, color, out);
        },
        Shape::Cuboid { half_extents } => {
            add_box(window, body, delta, *half_extents, color, out);
        },
        Shape::Convex { points } => {
            add_convex(window, body, delta, points, color, out);
        },
        Shape::Cylinder { half_height, radius } => {
            add_cylinder(window, body, delta, *half_height, *radius, color, out);
        },
        Shape::Cone { half_height, radius } => {
            add_cone(window, body, delta, *half_height, *radius, color, out);
        },
        Shape::BezierSurface { control_points, nupoints, nvpoints } => {
            add_bezier_surface(window, body, delta, control_points, *nupoints, *nvpoints, color, out);
        },
        Shape::Compound { parts } => {
            let mut i: usize = 0;
            while i < parts.len()
                invariant
                    i <= parts.len(),
                    *shape == (Shape::Compound { parts: *parts }),
                    views(out@) == views(old(out)@) + built(
                        *body,
                        Shape::leaves_of(parts@.take(i as int), delta@),
                        color,
                        old(window)@.issued(),
                    ),
                    window@ == old(window)@.grown(Shape::leaf_count_of(parts@.take(i as int))),
                decreases parts.len() - i,
            {
                let part = &parts[i];
                proof {
                    let before = parts@.take(i as int);
                    assert(parts@.take(i + 1).drop_last() == before);
                    lemma_leaves_of_len(before, delta@);
                    lemma_leaves_len(part.shape, delta@.push(part.local));
                    lemma_built_concat(
                        *body,
                        Shape::leaves_of(before, delta@),
                        part.shape.leaves(delta@.push(part.local)),
                        color,
                        old(window)@.issued(),
                    );
                    assert(decreases_to!(*shape => shape->parts));
                    assert(decreases_to!(*parts => parts@));
                    assert(decreases_to!(parts@ => parts@[i as int]));
                    assert(decreases_to!(*part => part.shape));
                }
                add_shape(window, body, delta.extended(part.local), &part.shape, color, out);
                i = i + 1;
            }
            assert(parts@.take(i as int) == parts@);
            return ;
        },
        Shape::Mesh { vertices, indices } => {
            add_mesh(window, body, delta, vertices, indices, color, out);
        },
    }
    assert(views(out@) =~= views(old(out)@) + built(*body, seq![leaf], color, first));
}

} // verus!
