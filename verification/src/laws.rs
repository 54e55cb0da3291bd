//! What holds of the adapter whatever its state and its inputs.

use vstd::prelude::*;
use crate::body::Body;
use crate::body::BodyState;
use crate::engine::handles;
use crate::engine::owned;
use crate::engine::GraphicsManagerView;
use crate::factory::leaf_node;
use crate::factory::lemma_leaves_len;
use crate::factory::triangles_of;
use crate::math::Color;
use crate::math::Isometry;
use crate::node::NodeKind;
use crate::node::NodeView;
use crate::scene::GeometryView;
use crate::scene::Scene;
use crate::scene::SceneView;
use crate::shape::Leaf;
use crate::shape::Shape;

verus! {

/// A body gets exactly one node per leaf of its shape, and the node at
/// position `i` is the one made for the `i`-th leaf in depth-first order.
pub proof fn law_one_node_per_leaf(body: Body, color: Color, issued: int)
    ensures
        GraphicsManagerView::node_set(body, color, issued).len() == body.shape.leaf_count(),
        forall|i: int|
            0 <= i < body.shape.leaf_count() ==> #[trigger] GraphicsManagerView::node_set(
                body,
                color,
                issued,
            )[i] == leaf_node(body, body.shape.leaves(Seq::empty())[i], color, issued + i),
{
    lemma_leaves_len(body.shape, Seq::empty());
}

/// After `add`, the body is registered with one node per leaf, whatever
/// was registered before.
pub proof fn law_add_registers(state: GraphicsManagerView, body: Body, issued: int)
    ensures
        state.added(body, issued).nodes.contains_key(body.key),
        state.added(body, issued).nodes[body.key].len() == body.shape.leaf_count(),
        forall|other: u64|
            other != body.key ==> (state.added(body, issued).nodes.contains_key(other)
                <==> state.nodes.contains_key(other)),
{
    law_one_node_per_leaf(body, state.color_for(body), issued);
}

/// Every node of a node set has, and shows, the color the set was built in.
pub proof fn law_node_set_color(body: Body, color: Color, issued: int)
    ensures
        forall|i: int|
            #![trigger GraphicsManagerView::node_set(body, color, issued)[i]]
            0 <= i < body.shape.leaf_count() ==> {
                let node = GraphicsManagerView::node_set(body, color, issued)[i];
                node.object.color == color && node.object.gfx.color == color
            },
{
    lemma_leaves_len(body.shape, Seq::empty());
}

/// An assigned color outlives the removal of the body: assign a color, add
/// the body, remove it and add it again, and the nodes have that color both
/// times.
pub proof fn law_color_persists(
    state: GraphicsManagerView,
    body: Body,
    color: Color,
    first: int,
    second: int,
)
    ensures
        ({
            let once = state.with_color(body.key, color).added(body, first);
            let again = once.removed(body.key).added(body, second);
            &&& once.nodes[body.key] == GraphicsManagerView::node_set(body, color, first)
            &&& again.nodes[body.key] == GraphicsManagerView::node_set(body, color, second)
            &&& again.colors[body.key] == color
            &&& forall|i: int|
                0 <= i < body.shape.leaf_count() ==> (#[trigger] once.nodes[body.key][i]).object.color
                    == color
            &&& forall|i: int|
                0 <= i < body.shape.leaf_count() ==> (#[trigger] again.nodes[body.key][i]).object.color
                    == color
        }),
{
    law_node_set_color(body, color, first);
    law_node_set_color(body, color, second);
}

/// A body that cannot move and has no assigned color gets gray nodes.
pub proof fn law_static_is_gray(state: GraphicsManagerView, body: Body, issued: int)
    requires
        !body.can_move,
        !state.colors.contains_key(body.key),
    ensures
        state.added(body, issued).rand == state.rand,
        state.added(body, issued).nodes[body.key] == GraphicsManagerView::node_set(
            body,
            Color::spec_gray(),
            issued,
        ),
        forall|i: int|
            0 <= i < body.shape.leaf_count() ==> (#[trigger] state.added(
                body,
                issued,
            ).nodes[body.key][i]).object.color == Color::spec_gray(),
{
    law_node_set_color(body, Color::spec_gray(), issued);
}

/// Removing a body that is not registered changes neither the registry nor
/// the scene.
pub proof fn law_remove_absent(state: GraphicsManagerView, scene: SceneView, body: u64)
    requires
        !state.nodes.contains_key(body),
    ensures
        state.removed(body) == state,
        state.scene_without(scene, body) == scene,
{
    assert(state.nodes.remove(body) =~= state.nodes);
}

/// Removing a body twice is removing it once.
pub proof fn law_remove_twice(state: GraphicsManagerView, scene: SceneView, body: u64)
    ensures
        state.removed(body).removed(body) == state.removed(body),
        state.removed(body).scene_without(state.scene_without(scene, body), body)
            == state.scene_without(scene, body),
{
    assert(state.nodes.remove(body).remove(body) =~= state.nodes.remove(body));
}

/// Removal leaves the assigned colors, the cameras and the color stream as
/// they are.
pub proof fn law_remove_keeps_colors(state: GraphicsManagerView, body: u64)
    ensures
        state.removed(body).colors == state.colors,
        state.cleared().colors == state.colors,
        !state.removed(body).nodes.contains_key(body),
{
}

/// After `clear` no body is registered, and no scene node that the registry
/// owned is attached; the other scene nodes are as before.
pub proof fn law_clear_empties(state: GraphicsManagerView, scene: SceneView)
    ensures
        forall|body: u64| !state.cleared().nodes.contains_key(body),
        forall|h: int| owned(state.nodes).contains(h) ==> !scene.without_all(owned(state.nodes)).is_attached(h),
        forall|h: int|
            !owned(state.nodes).contains(h) ==> (scene.without_all(owned(state.nodes)).is_attached(h)
                <==> scene.is_attached(h)),
{
}

/// If every attached scene node of the scene is owned by the registry, the
/// scene holds no attached scene node after `clear`.
pub proof fn law_clear_leaves_nothing(state: GraphicsManagerView, scene: SceneView)
    requires
        forall|h: int| scene.is_attached(h) ==> owned(state.nodes).contains(h),
    ensures
        scene.without_all(owned(state.nodes)).population() == 0,
{
    let after = scene.without_all(owned(state.nodes));
    assert forall|h: int| 0 <= h < after.slots.len() implies !after.slots[h] by {
        if after.slots[h] {
            assert(scene.is_attached(h));
        }
    }
    lemma_count_none(after.slots);
}

proof fn lemma_count_none(slots: Seq<bool>)
    requires
        forall|h: int| 0 <= h < slots.len() ==> !slots[h],
    ensures
        Scene::count_true(slots) == 0,
    decreases slots.len(),
{
    if slots.len() > 0 {
        lemma_count_none(slots.drop_last());
    }
}

/// The scene nodes of a node set that has just been built are the ones
/// with the handles from `issued` on, one per leaf.
pub proof fn law_node_set_handles(body: Body, color: Color, issued: int)
    ensures
        forall|h: int|
            handles(GraphicsManagerView::node_set(body, color, issued)).contains(h) <==> issued <= h
                < issued + body.shape.leaf_count(),
{
    lemma_leaves_len(body.shape, Seq::empty());
    let nodes = GraphicsManagerView::node_set(body, color, issued);
    assert forall|h: int| issued <= h < issued + body.shape.leaf_count() implies handles(
        nodes,
    ).contains(h) by {
        assert(nodes[h - issued].object.gfx.handle == h);
    }
}

/// A ball is shown as a sphere of the ball's radius plus the body's margin,
/// and a box with each half extent longer by the margin.
pub proof fn law_margin_inflates(body: Body, color: Color, issued: int)
    ensures
        body.shape matches Shape::Ball { radius } ==> {
            let nodes = GraphicsManagerView::node_set(body, color, issued);
            &&& nodes.len() == 1
            &&& nodes[0].kind == NodeKind::Ball
            &&& nodes[0].object.gfx.geometry == (GeometryView::Sphere { radius: radius + body.margin })
        },
        body.shape matches Shape::Cuboid { half_extents } ==> {
            let nodes = GraphicsManagerView::node_set(body, color, issued);
            &&& nodes.len() == 1
            &&& nodes[0].kind == NodeKind::Box
            &&& nodes[0].object.gfx.geometry == (GeometryView::Cuboid {
                half_x: half_extents.x + body.margin,
                half_y: half_extents.y + body.margin,
                half_z: half_extents.z + body.margin,
            })
        },
{
}

/// A leaf inside a compound inside a compound is reached with the outer
/// transform followed by the inner one.
pub proof fn law_nested_frame(shape: Shape, delta: Seq<Isometry>)
    requires
        shape matches Shape::Compound { parts } && parts@.len() == 1 && (
        parts@[0].shape matches Shape::Compound { parts: inner } && inner@.len() == 1
            && inner@[0].shape !is Compound),
    ensures
        shape.leaves(delta) == seq![
            Leaf {
                frame: delta.push(shape->parts@[0].local).push(
                    shape->parts@[0].shape->parts@[0].local,
                ),
                shape: shape->parts@[0].shape->parts@[0].shape,
            },
        ],
{
    let outer = shape->parts@;
    let inner = outer[0].shape->parts@;
    reveal_with_fuel(Shape::leaves_of, 2);
    assert(outer.drop_last() =~= Seq::empty());
    assert(inner.drop_last() =~= Seq::empty());
    assert(Shape::leaves_of(inner, delta.push(outer[0].local)) =~= inner[0].shape.leaves(
        delta.push(outer[0].local).push(inner[0].local),
    ));
    assert(Shape::leaves_of(outer, delta) =~= outer[0].shape.leaves(delta.push(outer[0].local)));
}

/// The node of a leaf inside a compound inside a compound keeps the outer
/// transform followed by the inner one as its frame, and stands at the
/// body's pose followed by that frame.  (A plane keeps no frame and is left
/// out.)
pub proof fn law_nested_delta(body: Body, color: Color, issued: int)
    requires
        body.shape matches Shape::Compound { parts } && parts@.len() == 1 && (
        parts@[0].shape matches Shape::Compound { parts: inner } && inner@.len() == 1
            && inner@[0].shape !is Compound && inner@[0].shape !is Plane),
    ensures
        ({
            let outer = body.shape->parts@[0];
            let inner = outer.shape->parts@[0];
            let nodes = GraphicsManagerView::node_set(body, color, issued);
            &&& nodes.len() == 1
            &&& nodes[0].object.delta == seq![outer.local, inner.local]
            &&& nodes[0].object.gfx.transformation == seq![
                body.state.position,
                outer.local,
                inner.local,
            ]
        }),
{
    law_nested_frame(body.shape, Seq::empty());
    let outer = body.shape->parts@[0];
    let inner = outer.shape->parts@[0];
    let nodes = GraphicsManagerView::node_set(body, color, issued);
    assert(nodes[0].object.delta =~= seq![outer.local, inner.local]);
    assert(nodes[0].object.gfx.transformation =~= seq![
        body.state.position,
        outer.local,
        inner.local,
    ]);
}

/// Selecting, unselecting and refreshing a node change neither its kind,
/// its body, its frame, its own color, nor the handle and the geometry of
/// its scene node.
pub proof fn law_node_keeps_identity(node: NodeView, state: BodyState)
    ensures
        forall|after: NodeView|
            after == node.selected() || after == node.unselected() || after == node.refreshed(state)
                ==> {
                &&& after.kind == node.kind
                &&& after.object.body == node.object.body
                &&& after.object.delta == node.object.delta
                &&& after.object.color == node.object.color
                &&& after.object.gfx.handle == node.object.gfx.handle
                &&& after.object.gfx.geometry == node.object.gfx.geometry
            },
        node.selected().unselected() == node.unselected(),
        node.unselected().object.gfx.color == node.object.color,
        node.refreshed(state).object.gfx.color == node.object.gfx.color,
{
}

/// Composition of frames is associative, and the empty frame is its unit.
pub proof fn law_compose_associative(a: Seq<Isometry>, b: Seq<Isometry>, c: Seq<Isometry>)
    ensures
        (a + b) + c == a + (b + c),
        Seq::<Isometry>::empty() + a == a,
        a + Seq::<Isometry>::empty() == a,
{
    assert((a + b) + c =~= a + (b + c));
    assert(Seq::<Isometry>::empty() + a =~= a);
    assert(a + Seq::<Isometry>::empty() =~= a);
}

/// After two switches the camera in use is the one that was in use, and it
/// stands and looks as before.
pub proof fn law_switch_twice(state: GraphicsManagerView)
    ensures
        state.switched().switched().camera() == state.camera(),
        state.switched().switched().curr_is_arc_ball == state.curr_is_arc_ball,
        state.switched().camera().eye == state.camera().eye,
        state.switched().camera().at == state.camera().at,
{
}

/// An index buffer gives one face for every three indices, in order; up
/// to two indices at the end give none.
pub proof fn law_triangles(indices: Seq<u32>)
    ensures
        triangles_of(indices).len() == indices.len() / 3,
        3 * triangles_of(indices).len() <= indices.len() < 3 * triangles_of(indices).len() + 3,
        forall|t: int|
            0 <= t < triangles_of(indices).len() ==> {
                let face = #[trigger] triangles_of(indices)[t];
                face.a == indices[3 * t] && face.b == indices[3 * t + 1] && face.c == indices[3 * t
                    + 2]
            },
{
}

} // verus!
