//! The data every node carries, whatever it shows.

use vstd::prelude::*;
use crate::body::Body;
use crate::body::BodyState;
use crate::math::Color;
use crate::math::Frame;
use crate::math::Isometry;
use crate::math::ONE;
use crate::scene::Geometry;
use crate::scene::Scene;
use crate::scene::SceneNode;
use crate::scene::SceneNodeView;

verus! {

/// The renderable representation of one leaf shape of one body.
#[derive(Debug, PartialEq, Eq)]
pub struct Object {
    body: u64,
    delta: Frame,
    color: Color,
    gfx: SceneNode,
}

/// The mathematical content of an [`Object`].
pub struct ObjectView {
    /// Key of the owning body.
    pub body: u64,
    /// Frame of the leaf in the body, fixed at creation.
    pub delta: Seq<Isometry>,
    /// Color given at creation; the scene node shows it unless the object
    /// is selected.
    pub color: Color,
    pub gfx: SceneNodeView,
}

impl ObjectView {
    /// The color a selected object is shown in.
    pub open spec fn highlight() -> Color {
        Color { r: ONE, g: 0, b: 0 }
    }

    /// A fresh object for a leaf of `body`.
    pub open spec fn created(
        body: u64,
        state: BodyState,
        delta: Seq<Isometry>,
        geometry: crate::scene::GeometryView,
        color: Color,
        handle: int,
    ) -> ObjectView {
        ObjectView {
            body,
            delta,
            color,
            gfx: SceneNodeView {
                handle,
                geometry,
                color,
                transformation: seq![state.position] + delta,
            },
        }
    }

    pub open spec fn selected(self) -> ObjectView {
        ObjectView { gfx: SceneNodeView { color: ObjectView::highlight(), ..self.gfx }, ..self }
    }

    pub open spec fn unselected(self) -> ObjectView {
        ObjectView { gfx: SceneNodeView { color: self.color, ..self.gfx }, ..self }
    }

    /// The object once it has taken the pose of its body.
    pub open spec fn refreshed(self, state: BodyState) -> ObjectView {
        ObjectView {
            gfx: SceneNodeView { transformation: seq![state.position] + self.delta, ..self.gfx },
            ..self
        }
    }
}

impl View for Object {
    type V = ObjectView;

    closed spec fn view(&self) -> ObjectView {
        ObjectView { body: self.body, delta: self.delta@, color: self.color, gfx: self.gfx@ }
    }
}

impl Object {
    /// Creates the scene node for one leaf of `body` and places it at the
    /// body's pose followed by `delta`.
    pub fn new(window: &mut Scene, body: &Body, delta: Frame, geometry: Geometry, color: Color) -> (object: Object)
        ensures
            object@ == ObjectView::created(
                body.key,
                body.state,
                delta@,
                geometry@,
                color,
                old(window)@.issued(),
            ),
            final(window)@.slots == old(window)@.slots.push(true),
            final(window)@.segments == old(window)@.segments,
    {
        let mut gfx = window.add(geometry);
        gfx.set_color(color);
        gfx.set_local_transformation(delta.under(body.state.position));
        Object { body: body.key, delta, color, gfx }
    }

    /// Shows the object in the highlight color.
    pub fn select(&mut self)
        ensures
            final(self)@ == old(self)@.selected(),
    {
        self.gfx.set_color(Color { r: ONE, g: 0, b: 0 });
    }

    /// Shows the object in its own color again.
    pub fn unselect(&mut self)
        ensures
            final(self)@ == old(self)@.unselected(),
    {
        self.gfx.set_color(self.color);
    }

    /// Moves the scene node to the pose in `state` followed by the
    /// object's own frame.
    pub fn update(&mut self, state: &BodyState)
        ensures
            final(self)@ == old(self)@.refreshed(*state),
    {
        self.gfx.set_local_transformation(self.delta.under(state.position));
    }

    pub fn object(&self) -> (gfx: &SceneNode)
        ensures
            gfx@ == self@.gfx,
    {
        &self.gfx
    }

    /// Key of the owning body.
    pub fn body(&self) -> (key: u64)
        ensures
            key == self@.body,
    {
        self.body
    }

    /// Frame of the leaf in the body.
    pub fn delta(&self) -> (delta: &Frame)
        ensures
            delta@ == self@.delta,
    {
        &self.delta
    }

    /// Color given at creation.
    pub fn color(&self) -> (color: Color)
        ensures
            color == self@.color,
    {
        self.color
    }
}

} // verus!
