//! The node: one renderable entity, of one of eight kinds fixed at creation.

use vstd::prelude::*;
use crate::body::BodyState;
use crate::objects::Object;
use crate::objects::ObjectView;
use crate::scene::SceneNode;

verus! {

/// The renderable representation of one leaf shape.
#[derive(Debug, PartialEq, Eq)]
pub enum Node {
    Ball(Object),
    Box(Object),
    Cylinder(Object),
    Cone(Object),
    Mesh(Object),
    Plane(Object),
    BezierSurface(Object),
    Convex(Object),
}

/// The kind of a node.
#[derive(Clone, Copy, Debug, PartialEq, Eq)]
pub enum NodeKind {
    Ball,
    Box,
    Cylinder,
    Cone,
    Mesh,
    Plane,
    BezierSurface,
    Convex,
}

/// The mathematical content of a [`Node`].
pub struct NodeView {
    pub kind: NodeKind,
    pub object: ObjectView,
}

impl View for Node {
    type V = NodeView;

    open spec fn view(&self) -> NodeView {
        match *self {
            Node::Ball(n) => NodeView { kind: NodeKind::Ball, object: n@ },
            Node::Box(n) => NodeView { kind: NodeKind::Box, object: n@ },
            Node::Cylinder(n) => NodeView { kind: NodeKind::Cylinder, object: n@ },
            Node::Cone(n) => NodeView { kind: NodeKind::Cone, object: n@ },
            Node::Mesh(n) => NodeView { kind: NodeKind::Mesh, object: n@ },
            Node::Plane(n) => NodeView { kind: NodeKind::Plane, object: n@ },
            Node::BezierSurface(n) => NodeView { kind: NodeKind::BezierSurface, object: n@ },
            Node::Convex(n) => NodeView { kind: NodeKind::Convex, object: n@ },
        }
    }
}

impl NodeView {
    pub open spec fn selected(self) -> NodeView {
        NodeView { object: self.object.selected(), ..self }
    }

    pub open spec fn unselected(self) -> NodeView {
        NodeView { object: self.object.unselected(), ..self }
    }

    /// The node once it has taken the pose of its body.
    pub open spec fn refreshed(self, state: BodyState) -> NodeView {
        NodeView { object: self.object.refreshed(state), ..self }
    }
}

impl Node {
    /// Shows the node in the highlight color.
    pub fn select(&mut self)
        ensures
            final(self)@ == old(self)@.selected(),
    {
        match self {
            Node::Plane(n) => n.select(),
            Node::Ball(n) => n.select(),
            Node::Box(n) => n.select(),
            Node::Cylinder(n) => n.select(),
            Node::Cone(n) => n.select(),
            Node::Mesh(n) => n.select(),
            Node::BezierSurface(n) => n.select(),
            Node::Convex(n) => n.select(),
        }
    }

    /// Shows the node in its own color again.
    pub fn unselect(&mut self)
        ensures
            final(self)@ == old(self)@.unselected(),
    {
        match self {
            Node::Plane(n) => n.unselect(),
            Node::Ball(n) => n.unselect(),
            Node::Box(n) => n.unselect(),
            Node::Cylinder(n) => n.unselect(),
            Node::Cone(n) => n.unselect(),
            Node::Mesh(n) => n.unselect(),
            Node::BezierSurface(n) => n.unselect(),
            Node::Convex(n) => n.unselect(),
        }
    }

    /// Moves the scene node to where the owning body now is.
    pub fn update(&mut self, state: &BodyState)
        ensures
            final(self)@ == old(self)@.refreshed(*state),
    {
        match self {
            Node::Plane(n) => n.update(state),
            Node::Ball(n) => n.update(state),
            Node::Box(n) => n.update(state),
            Node::Cylinder(n) => n.update(state),
            Node::Cone(n) => n.update(state),
            Node::Mesh(n) => n.update(state),
            Node::BezierSurface(n) => n.update(state),
            Node::Convex(n) => n.update(state),
        }
    }

    /// The scene node that shows this node.
    pub fn object(&self) -> (gfx: &SceneNode)
        ensures
            gfx@ == self@.object.gfx,
    {
        match self {
            Node::Plane(n) => n.object(),
            Node::Ball(n) => n.object(),
            Node::Box(n) => n.object(),
            Node::Cylinder(n) => n.object(),
            Node::Cone(n) => n.object(),
            Node::Mesh(n) => n.object(),
            Node::BezierSurface(n) => n.object(),
            Node::Convex(n) => n.object(),
        }
    }

    /// Key of the owning body.
    pub fn body(&self) -> (key: u64)
        ensures
            key == self@.object.body,
    {
        match self {
            Node::Plane(n) => n.body(),
            Node::Ball(n) => n.body(),
            Node::Box(n) => n.body(),
            Node::Cylinder(n) => n.body(),
            Node::Cone(n) => n.body(),
            Node::Mesh(n) => n.body(),
            Node::BezierSurface(n) => n.body(),
            Node::Convex(n) => n.body(),
        }
    }

    pub fn kind(&self) -> (kind: NodeKind)
        ensures
            kind == self@.kind,
    {
        match self {
            Node::Plane(_) => NodeKind::Plane,
            Node::Ball(_) => NodeKind::Ball,
            Node::Box(_) => NodeKind::Box,
            Node::Cylinder(_) => NodeKind::Cylinder,
            Node::Cone(_) => NodeKind::Cone,
            Node::Mesh(_) => NodeKind::Mesh,
            Node::BezierSurface(_) => NodeKind::BezierSurface,
            Node::Convex(_) => NodeKind::Convex,
        }
    }

    /// The data shared by all kinds.
    pub fn data(&self) -> (object: &Object)
        ensures
            object@ == self@.object,
    {
        match self {
            Node::Plane(n) => n,
            Node::Ball(n) => n,
            Node::Box(n) => n,
            Node::Cylinder(n) => n,
            Node::Cone(n) => n,
            Node::Mesh(n) => n,
            Node::BezierSurface(n) => n,
            Node::Convex(n) => n,
        }
    }
}

} // verus!
