//! The registry of bodies: which nodes show which body, which color a body
//! was given, and which of the two cameras is in use.

use std::collections::HashMap;
use vstd::prelude::*;
use vstd::std_specs::iter::IteratorSpec;
use crate::body::Body;
use crate::body::BodyState;
use crate::camera::Camera;
use crate::camera::CameraKind;
use crate::colors::ColorStream;
use crate::factory::add_shape;
use crate::factory::built;
use crate::factory::views;
use crate::math::Color;
use crate::math::Frame;
use crate::math::Point;
use crate::math::ONE;
use crate::math::QUARTER;
use crate::node::Node;
use crate::node::NodeView;
use crate::scene::Axis;
use crate::scene::Scene;
use crate::scene::SceneView;
use crate::scene::Segment;

verus! {

/// The handles of the scene nodes that show the given nodes.
pub open spec fn handles(nodes: Seq<NodeView>) -> Set<int> {
    Set::new(|h: int| exists|i: int| 0 <= i < nodes.len() && #[trigger] nodes[i].object.gfx.handle == h)
}

/// The handles of all scene nodes that a registry owns.
pub open spec fn owned(nodes: Map<u64, Seq<NodeView>>) -> Set<int> {
    Set::new(|h: int| exists|key: u64| nodes.contains_key(key) && #[trigger] handles(nodes[key]).contains(h))
}

/// The handles of the scene nodes that show the bodies with the given keys.
pub open spec fn owned_by(nodes: Map<u64, Seq<NodeView>>, keys: Seq<u64>) -> Set<int> {
    Set::new(
        |h: int|
            exists|j: int|
                0 <= j < keys.len() && nodes.contains_key(keys[j]) && #[trigger] handles(
                    nodes[keys[j]],
                ).contains(h),
    )
}

/// A node once it has taken the pose that `world` holds for its body; the
/// node as it is, if `world` does not hold the body.
pub open spec fn refreshed(node: NodeView, world: Map<u64, BodyState>) -> NodeView {
    if world.contains_key(node.object.body) {
        node.refreshed(world[node.object.body])
    } else {
        node
    }
}

/// A node set once each node has taken the pose that `world` holds for its
/// body.
pub open spec fn refreshed_all(nodes: Seq<NodeView>, world: Map<u64, BodyState>) -> Seq<NodeView> {
    nodes.map_values(|node: NodeView| refreshed(node, world))
}

/// The three segments that mark the axes of a body: from its center of
/// mass, a quarter long, the first axis red, the second green, the third blue.
pub open spec fn axes(state: BodyState) -> Seq<Segment> {
    seq![
        Segment {
            origin: state.center_of_mass,
            orientation: state.position.rotation,
            axis: Axis::X,
            length: QUARTER,
            color: Color { r: ONE, g: 0, b: 0 },
        },
        Segment {
            origin: state.center_of_mass,
            orientation: state.position.rotation,
            axis: Axis::Y,
            length: QUARTER,
            color: Color { r: 0, g: ONE, b: 0 },
        },
        Segment {
            origin: state.center_of_mass,
            orientation: state.position.rotation,
            axis: Axis::Z,
            length: QUARTER,
            color: Color { r: 0, g: 0, b: ONE },
        },
    ]
}

/// The segments drawn for the given nodes, node by node: the axes of the
/// node's body, and nothing for a node whose body `world` does not hold.
pub open spec fn nodes_axes(nodes: Seq<NodeView>, world: Map<u64, BodyState>) -> Seq<Segment>
    decreases nodes.len(),
{
    if nodes.len() == 0 {
        Seq::empty()
    } else {
        let last = nodes.last().object.body;
        nodes_axes(nodes.drop_last(), world) + if world.contains_key(last) {
            axes(world[last])
        } else {
            Seq::empty()
        }
    }
}

/// The segments drawn for the node sets of the given keys, key by key.
pub open spec fn bodies_axes(
    keys: Seq<u64>,
    nodes: Map<u64, Seq<NodeView>>,
    world: Map<u64, BodyState>,
) -> Seq<Segment>
    decreases keys.len(),
{
    if keys.len() == 0 {
        Seq::empty()
    } else {
        bodies_axes(keys.drop_last(), nodes, world) + nodes_axes(nodes[keys.last()], world)
    }
}

/// The registry and the cameras.
pub struct GraphicsManager {
    rand: ColorStream,
    rb2sn: HashMap<u64, Vec<Node>>,
    rb2color: HashMap<u64, Color>,
    arc_ball: Camera,
    first_person: Camera,
    curr_is_arc_ball: bool,
}

/// The mathematical content of a [`GraphicsManager`].
#[verifier::ext_equal]
pub struct GraphicsManagerView {
    /// State of the color stream.
    pub rand: ColorStream,
    /// The node set of each registered body, by the body's key.
    pub nodes: Map<u64, Seq<NodeView>>,
    /// The color assigned to a body by `set_color`, by the body's key.
    pub colors: Map<u64, Color>,
    pub arc_ball: Camera,
    pub first_person: Camera,
    pub curr_is_arc_ball: bool,
}

impl GraphicsManagerView {
    /// The state of a new manager.
    pub open spec fn initial() -> GraphicsManagerView {
        let eye = Point { x: 655360, y: 655360, z: 655360 };
        let at = Point { x: 0, y: 0, z: 0 };
        GraphicsManagerView {
            rand: (ColorStream { x: 0, y: 2, z: 4, w: 8 }).advanced(300),
            nodes: Map::empty(),
            colors: Map::empty(),
            arc_ball: Camera { kind: CameraKind::ArcBall, eye, at },
            first_person: Camera { kind: CameraKind::FirstPerson, eye, at },
            curr_is_arc_ball: true,
        }
    }

    /// The color that `add` gives to the nodes of `body`.
    pub open spec fn color_for(self, body: Body) -> Color {
        if self.colors.contains_key(body.key) {
            self.colors[body.key]
        } else if body.can_move {
            self.rand.color()
        } else {
            Color::spec_gray()
        }
    }

    /// Whether `add` takes the color of `body` from the stream.
    pub open spec fn draws_for(self, body: Body) -> bool {
        !self.colors.contains_key(body.key) && body.can_move
    }

    /// The node set that is built for `body` in the given color when the
    /// scene has given out `issued` handles so far.
    pub open spec fn node_set(body: Body, color: Color, issued: int) -> Seq<NodeView> {
        built(body, body.shape.leaves(Seq::empty()), color, issued)
    }

    /// The state after `color` has been assigned to the body with key `body`.
    pub open spec fn with_color(self, body: u64, color: Color) -> GraphicsManagerView {
        GraphicsManagerView { colors: self.colors.insert(body, color), ..self }
    }

    /// The state after `body` has been registered in the given color, when
    /// the scene had given out `issued` handles before.
    pub open spec fn added_with_color(self, body: Body, color: Color, issued: int) -> GraphicsManagerView {
        GraphicsManagerView {
            nodes: self.nodes.insert(body.key, GraphicsManagerView::node_set(body, color, issued)),
            ..self
        }
    }

    /// The state after `body` has been registered in the color that falls
    /// to it, when the scene had given out `issued` handles before.
    pub open spec fn added(self, body: Body, issued: int) -> GraphicsManagerView {
        GraphicsManagerView {
            rand: if self.draws_for(body) {
                self.rand.advanced(3)
            } else {
                self.rand
            },
            ..self.added_with_color(body, self.color_for(body), issued)
        }
    }

    /// The state after the body with key `body` has been taken out.
    pub open spec fn removed(self, body: u64) -> GraphicsManagerView {
        GraphicsManagerView { nodes: self.nodes.remove(body), ..self }
    }

    /// The state after every body has been taken out.
    pub open spec fn cleared(self) -> GraphicsManagerView {
        GraphicsManagerView { nodes: Map::empty(), ..self }
    }

    /// The state after every node has taken the pose that `world` holds for
    /// its body.
    pub open spec fn drawn(self, world: Map<u64, BodyState>) -> GraphicsManagerView {
        GraphicsManagerView {
            nodes: self.nodes.map_values(|nodes: Seq<NodeView>| refreshed_all(nodes, world)),
            ..self
        }
    }

    /// The state after both cameras have been placed at `eye`, looking at
    /// `at`.
    pub open spec fn looking_at(self, eye: Point, at: Point) -> GraphicsManagerView {
        GraphicsManagerView {
            arc_ball: Camera { eye, at, ..self.arc_ball },
            first_person: Camera { eye, at, ..self.first_person },
            ..self
        }
    }

    /// The scene after the node set of the body with key `body` has been
    /// taken out of it.
    pub open spec fn scene_without(self, scene: SceneView, body: u64) -> SceneView {
        if self.nodes.contains_key(body) {
            scene.without_all(handles(self.nodes[body]))
        } else {
            scene
        }
    }

    /// The camera in use.
    pub open spec fn camera(self) -> Camera {
        if self.curr_is_arc_ball {
            self.arc_ball
        } else {
            self.first_person
        }
    }

    /// The state after the other camera has taken over from the one in use.
    pub open spec fn switched(self) -> GraphicsManagerView {
        if self.curr_is_arc_ball {
            GraphicsManagerView {
                first_person: Camera { eye: self.arc_ball.eye, at: self.arc_ball.at, ..self.first_person },
                curr_is_arc_ball: false,
                ..self
            }
        } else {
            GraphicsManagerView {
                arc_ball: Camera { eye: self.first_person.eye, at: self.first_person.at, ..self.arc_ball },
                curr_is_arc_ball: true,
                ..self
            }
        }
    }
}

impl View for GraphicsManager {
    type V = GraphicsManagerView;

    closed spec fn view(&self) -> GraphicsManagerView {
        GraphicsManagerView {
            rand: self.rand,
            nodes: self.rb2sn@.map_values(|nodes: Vec<Node>| views(nodes@)),
            colors: self.rb2color@,
            arc_ball: self.arc_ball,
            first_person: self.first_person,
            curr_is_arc_ball: self.curr_is_arc_ball,
        }
    }
}

/// Removes from the scene the scene node of each of the given nodes.
fn detach(window: &mut Scene, nodes: &Vec<Node>)
    ensures
        final(window)@ == old(window)@.without_all(handles(views(nodes@))),
{
    let mut i: usize = 0;
    assert(window@ =~= old(window)@.without_all(handles(views(nodes@.take(0)))));
    while i < nodes.len()
        invariant
            i <= nodes.len(),
            window@ == old(window)@.without_all(handles(views(nodes@.take(i as int)))),
        decreases nodes.len() - i,
    {
        let ghost before = handles(views(nodes@.take(i as int)));
        let ghost after = handles(views(nodes@.take(i + 1)));
        let ghost h = nodes@[i as int]@.object.gfx.handle;
        window.remove(nodes[i].object());
        proof {
            assert(views(nodes@.take(i + 1))[i as int].object.gfx.handle == h);
            assert forall|k: int| after.contains(k) <==> before.contains(k) || k == h by {
                if before.contains(k) {
                    let j = choose|j: int|
                        0 <= j < i && #[trigger] views(nodes@.take(i as int))[j].object.gfx.handle == k;
                    assert(views(nodes@.take(i + 1))[j].object.gfx.handle == k);
                }
                if after.contains(k) && k != h {
                    let j = choose|j: int|
                        0 <= j < i + 1 && #[trigger] views(nodes@.take(i + 1))[j].object.gfx.handle
                            == k;
                    assert(views(nodes@.take(i as int))[j].object.gfx.handle == k);
                }
            }
            assert(window@ =~= old(window)@.without_all(after));
        }
        i = i + 1;
    }
    assert(nodes@.take(i as int) == nodes@);
}

/// The keys of the registry, each once, in the order in which the map
/// hands them out.
fn keys_of(map: &HashMap<u64, Vec<Node>>) -> (keys: Vec<u64>)
    ensures
        keys@.no_duplicates(),
        keys@.to_set() == map@.dom(),
{
    broadcast use vstd::std_specs::hash::group_hash_axioms;
    let mut keys: Vec<u64> = Vec::new();
    for key in it: map.keys()
        invariant
            it.seq() == map.keys().remaining(),
            keys@.len() == it.index(),
            forall|i: int| 0 <= i < keys@.len() ==> keys@[i] == *it.seq()[i],
    {
        keys.push(*key);
    }
    assert(keys@ =~= map.keys().remaining().unref());
    keys
}

/// `HashMap::get_mut`: a mutable reference to the value stored under `key`,
/// if there is one.  The map changes only in that value, and only as the
/// reference is written through.
#[verifier::external_body]
fn entry_mut(map: &mut HashMap<u64, Vec<Node>>, key: u64) -> (entry: Option<&mut Vec<Node>>)
    ensures
        match entry {
            Some(nodes) => {
                &&& old(map)@.contains_key(key)
                &&& *nodes == old(map)@[key]
                &&& final(map)@ == old(map)@.insert(key, *final(nodes))
            },
            None => !old(map)@.contains_key(key) && final(map)@ == old(map)@,
        },
{
    map.get_mut(&key)
}

/// Moves each of the given nodes to where `world` says its body is.
fn refresh(nodes: &mut Vec<Node>, world: &HashMap<u64, BodyState>)
    ensures
        views(final(nodes)@) == refreshed_all(views(old(nodes)@), world@),
{
    broadcast use vstd::std_specs::hash::group_hash_axioms;
    let mut i: usize = 0;
    while i < nodes.len()
        invariant
            i <= nodes.len(),
            nodes@.len() == old(nodes)@.len(),
            forall|j: int| 0 <= j < i ==> (#[trigger] nodes@[j])@ == refreshed(old(nodes)@[j]@, world@),
            forall|j: int| i <= j < nodes@.len() ==> #[trigger] nodes@[j] == old(nodes)@[j],
        decreases nodes.len() - i,
    {
        let key = nodes[i].body();
        match world.get(&key) {
            Some(state) => {
                nodes[i].update(state);
            },
            None => {},
        }
        i = i + 1;
    }
    assert(views(nodes@) =~= refreshed_all(views(old(nodes)@), world@));
}

/// Queues the three axis segments of a body.
fn draw_axes(window: &mut Scene, state: &BodyState)
    ensures
        final(window)@ == (SceneView {
            segments: old(window)@.segments + axes(*state),
            ..old(window)@
        }),
{
    let origin = state.center_of_mass;
    let orientation = state.position.rotation;
    window.draw_segment(
        Segment { origin, orientation, axis: Axis::X, length: QUARTER, color: Color { r: ONE, g: 0, b: 0 } },
    );
    window.draw_segment(
        Segment { origin, orientation, axis: Axis::Y, length: QUARTER, color: Color { r: 0, g: ONE, b: 0 } },
    );
    window.draw_segment(
        Segment { origin, orientation, axis: Axis::Z, length: QUARTER, color: Color { r: 0, g: 0, b: ONE } },
    );
    assert(window@.segments =~= old(window)@.segments + axes(*state));
}

/// Queues the axis segments of the body of each of the given nodes.
fn draw_nodes_axes(window: &mut Scene, nodes: &Vec<Node>, world: &HashMap<u64, BodyState>)
    ensures
        final(window)@ == (SceneView {
            segments: old(window)@.segments + nodes_axes(views(nodes@), world@),
            ..old(window)@
        }),
{
    broadcast use vstd::std_specs::hash::group_hash_axioms;
    let mut i: usize = 0;
    assert(window@.segments =~= old(window)@.segments + nodes_axes(views(nodes@.take(0)), world@));
    while i < nodes.len()
        invariant
            i <= nodes.len(),
            window@ == (SceneView {
                segments: old(window)@.segments + nodes_axes(
                    views(nodes@.take(i as int)),
                    world@,
                ),
                ..old(window)@
            }),
        decreases nodes.len() - i,
    {
        let key = nodes[i].body();
        proof {
            assert(views(nodes@.take(i + 1)).drop_last() =~= views(nodes@.take(i as int)));
            assert(views(nodes@.take(i + 1)).last() == nodes@[i as int]@);
        }
        match world.get(&key) {
            Some(state) => {
                draw_axes(window, state);
            },
            None => {},
        }
        assert(window@.segments =~= old(window)@.segments + nodes_axes(
            views(nodes@.take(i + 1)),
            world@,
        ));
        i = i + 1;
    }
    assert(nodes@.take(i as int) == nodes@);
}

impl GraphicsManager {
    /// A manager with no body and no assigned color.  Both cameras stand at
    /// (10, 10, 10) and look at the origin, and the orbiting one is in use.
    /// The color stream starts from the words 0, 2, 4, 8 and has its first
    /// hundred colors dropped.
    pub fn new() -> (manager: GraphicsManager)
        ensures
            manager@ == GraphicsManagerView::initial(),
    {
        let eye = Point { x: 655360, y: 655360, z: 655360 };
        let at = Point { x: 0, y: 0, z: 0 };
        let arc_ball = Camera::new(CameraKind::ArcBall, eye, at);
        let first_person = Camera::new(CameraKind::FirstPerson, eye, at);
        let mut rng = ColorStream::new(0, 2, 4, 8);
        // the first colors are dull.
        rng.skip(100);
        let manager = GraphicsManager {
            arc_ball,
            first_person,
            curr_is_arc_ball: true,
            rand: rng,
            rb2sn: HashMap::new(),
            rb2color: HashMap::new(),
        };
        assert(manager@.nodes =~= Map::empty());
        manager
    }

    /// Assigns `color` to the body with key `body`.  Node sets that exist
    /// keep the color they have.
    pub fn set_color(&mut self, body: u64, color: Color)
        ensures
            final(self)@ == old(self)@.with_color(body, color),
    {
        broadcast use vstd::std_specs::hash::group_hash_axioms;
        self.rb2color.insert(body, color);
    }

    /// Registers `body` with a node set in the color assigned to it; if none
    /// is assigned, in gray when the body cannot move and else in the next
    /// color of the stream.
    pub fn add(&mut self, window: &mut Scene, body: &Body)
        ensures
            final(self)@ == old(self)@.added(*body, old(window)@.issued()),
            final(window)@ == old(window)@.grown(body.shape.leaf_count()),
    {
        broadcast use vstd::std_specs::hash::group_hash_axioms;
        let color;
        match self.rb2color.get(&body.key) {
            Some(c) => color = *c,
            None => {
                if body.can_move {
                    color = self.rand.next_color();
                } else {
                    color = Color::gray();
                }
            },
        }
        self.add_with_color(window, body, color)
    }

    /// Registers `body` with a node set in the given color: one node per
    /// leaf of the body's shape, in depth-first order.  A node set that the
    /// body had is replaced, and its scene nodes stay in the scene.
    pub fn add_with_color(&mut self, window: &mut Scene, body: &Body, color: Color)
        ensures
            final(self)@ == old(self)@.added_with_color(*body, color, old(window)@.issued()),
            final(window)@ == old(window)@.grown(body.shape.leaf_count()),
    {
        broadcast use vstd::std_specs::hash::group_hash_axioms;
        let mut nodes: Vec<Node> = Vec::new();
        add_shape(window, body, Frame::identity(), &body.shape, color, &mut nodes);
        assert(views(nodes@) =~= GraphicsManagerView::node_set(*body, color, old(window)@.issued()));
        self.rb2sn.insert(body.key, nodes);
        assert(self@.nodes =~= old(self)@.nodes.insert(body.key, views(nodes@)));
    }

    /// Takes the body with key `body` out of the registry and its scene
    /// nodes out of the scene.  The color assigned to the body stays.
    /// Does nothing if the body is not registered.
    pub fn remove(&mut self, window: &mut Scene, body: u64)
        ensures
            final(self)@ == old(self)@.removed(body),
            final(window)@ == old(self)@.scene_without(old(window)@, body),
    {
        broadcast use vstd::std_specs::hash::group_hash_axioms;
        match self.rb2sn.get(&body) {
            Some(sns) => {
                detach(window, sns);
            },
            None => {},
        }
        self.rb2sn.remove(&body);
        assert(self@.nodes =~= old(self)@.nodes.remove(body));
    }

    /// Takes every body out of the registry and every scene node of the
    /// registry out of the scene.  The assigned colors stay.
    pub fn clear(&mut self, window: &mut Scene)
        ensures
            final(self)@ == old(self)@.cleared(),
            final(window)@ == old(window)@.without_all(owned(old(self)@.nodes)),
    {
        broadcast use vstd::std_specs::hash::group_hash_axioms;
        let keys = keys_of(&self.rb2sn);
        let ghost nodes = self@.nodes;
        let mut i: usize = 0;
        assert(window@ =~= old(window)@.without_all(owned_by(nodes, keys@.take(0))));
        while i < keys.len()
            invariant
                i <= keys.len(),
                nodes == self@.nodes,
                keys@.to_set() == self.rb2sn@.dom(),
                window@ == old(window)@.without_all(owned_by(nodes, keys@.take(i as int))),
            decreases keys.len() - i,
        {
            let ghost before = owned_by(nodes, keys@.take(i as int));
            let ghost after = owned_by(nodes, keys@.take(i + 1));
            let key = keys[i];
            assert(keys@.to_set().contains(key));
            match self.rb2sn.get(&key) {
                Some(sns) => {
                    detach(window, sns);
                    proof {
                        let here = handles(nodes[key]);
                        assert(keys@.take(i + 1)[i as int] == key);
                        assert forall|h: int| after.contains(h) <==> before.contains(h)
                            || here.contains(h) by {
                            if before.contains(h) {
                                let j = choose|j: int|
                                    0 <= j < i && nodes.contains_key(keys@.take(i as int)[j])
                                        && #[trigger] handles(
                                        nodes[keys@.take(i as int)[j]],
                                    ).contains(h);
                                assert(handles(nodes[keys@.take(i + 1)[j]]).contains(h));
                            }
                            if here.contains(h) {
                                assert(handles(nodes[keys@.take(i + 1)[i as int]]).contains(h));
                            }
                            if after.contains(h) && !here.contains(h) {
                                let j = choose|j: int|
                                    0 <= j < i + 1 && nodes.contains_key(keys@.take(i + 1)[j])
                                        && #[trigger] handles(nodes[keys@.take(i + 1)[j]]).contains(
                                        h,
                                    );
                                assert(handles(nodes[keys@.take(i as int)[j]]).contains(h));
                            }
                        }
                        assert(window@ =~= old(window)@.without_all(after));
                    }
                },
                None => {},
            }
            i = i + 1;
        }
        proof {
            assert(keys@.take(i as int) == keys@);
            assert forall|h: int| owned(nodes).contains(h) <==> owned_by(nodes, keys@).contains(
                h,
            ) by {
                if owned(nodes).contains(h) {
                    let key = choose|key: u64|
                        nodes.contains_key(key) && #[trigger] handles(nodes[key]).contains(h);
                    assert(keys@.to_set().contains(key));
                    let j = choose|j: int| 0 <= j < keys@.len() && keys@[j] == key;
                    assert(handles(nodes[keys@[j]]).contains(h));
                }
                if owned_by(nodes, keys@).contains(h) {
                    let j = choose|j: int|
                        0 <= j < keys@.len() && nodes.contains_key(keys@[j]) && #[trigger] handles(
                            nodes[keys@[j]],
                        ).contains(h);
                    assert(handles(nodes[keys@[j]]).contains(h));
                }
            }
            assert(owned(nodes) =~= owned_by(nodes, keys@));
        }
        self.rb2sn.clear();
        assert(self@.nodes =~= Map::empty());
    }

    /// Makes the other camera the one in use and places it where the camera
    /// in use until now stands and looks.
    pub fn switch_cameras(&mut self)
        ensures
            final(self)@ == old(self)@.switched(),
    {
        if self.curr_is_arc_ball {
            self.first_person.look_at_z(self.arc_ball.eye(), self.arc_ball.at());
        } else {
            self.arc_ball.look_at_z(self.first_person.eye(), self.first_person.at());
        }
        self.curr_is_arc_ball = !self.curr_is_arc_ball;
    }

    /// Places both cameras at `eye`, looking at `at`.
    pub fn look_at(&mut self, eye: Point, at: Point)
        ensures
            final(self)@ == old(self)@.looking_at(eye, at),
    {
        self.arc_ball.look_at_z(eye, at);
        self.first_person.look_at_z(eye, at);
    }

    /// The camera in use, to read and to steer.
    pub fn camera(&mut self) -> (camera: &mut Camera)
        ensures
            *camera == old(self)@.camera(),
            final(self)@ == if old(self)@.curr_is_arc_ball {
                GraphicsManagerView { arc_ball: *final(camera), ..old(self)@ }
            } else {
                GraphicsManagerView { first_person: *final(camera), ..old(self)@ }
            },
    {
        if self.curr_is_arc_ball {
            &mut self.arc_ball
        } else {
            &mut self.first_person
        }
    }

    /// The node set of the body with key `body`, if the body is registered.
    pub fn body_to_scene_node(&mut self, body: u64) -> (nodes: Option<&mut Vec<Node>>)
        ensures
            match nodes {
                Some(nodes) => {
                    &&& old(self)@.nodes.contains_key(body)
                    &&& views(nodes@) == old(self)@.nodes[body]
                    &&& final(self)@ == (GraphicsManagerView {
                        nodes: old(self)@.nodes.insert(body, views(final(nodes)@)),
                        ..old(self)@
                    })
                },
                None => !old(self)@.nodes.contains_key(body) && final(self)@ == old(self)@,
            },
    {
        entry_mut(&mut self.rb2sn, body)
    }

    /// Moves every node of the registry to where `world` says its body is.
    /// A node whose body `world` does not hold stays where it is.
    pub fn draw(&mut self, world: &HashMap<u64, BodyState>)
        ensures
            final(self)@ == old(self)@.drawn(world@),
    {
        broadcast use vstd::std_specs::hash::group_hash_axioms;
        let keys = keys_of(&self.rb2sn);
        let ghost before = self@.nodes;
        let mut i: usize = 0;
        while i < keys.len()
            invariant
                i <= keys.len(),
                keys@.no_duplicates(),
                keys@.to_set() == before.dom(),
                before == old(self)@.nodes,
                self@ == (GraphicsManagerView { nodes: self@.nodes, ..old(self)@ }),
                self@.nodes.dom() == before.dom(),
                forall|j: int|
                    0 <= j < i ==> #[trigger] self@.nodes[keys@[j]] == refreshed_all(
                        before[keys@[j]],
                        world@,
                    ),
                forall|j: int| i <= j < keys@.len() ==> #[trigger] self@.nodes[keys@[j]] == before[keys@[j]],
            decreases keys.len() - i,
        {
            let key = keys[i];
            let ghost mid = self@.nodes;
            let ghost raw = self.rb2sn@;
            assert(keys@.to_set().contains(key));
            assert(mid.dom().contains(key));
            assert(raw.contains_key(key));
            assert(mid[keys@[i as int]] == before[keys@[i as int]]);
            assert(mid[key] == views(raw[key]@));
            match entry_mut(&mut self.rb2sn, key) {
                Some(nodes) => {
                    refresh(nodes, world);
                },
                None => {},
            }
            proof {
                assert(self.rb2sn@.contains_key(key));
                assert(views(self.rb2sn@[key]@) == refreshed_all(before[key], world@));
                assert(self@.nodes =~= mid.insert(key, refreshed_all(before[key], world@)));
                assert forall|j: int| 0 <= j < i + 1 implies #[trigger] self@.nodes[keys@[j]]
                    == refreshed_all(before[keys@[j]], world@) by {
                    if j < i {
                        assert(keys@[j] != keys@[i as int]);
                    }
                }
                assert forall|j: int| i + 1 <= j < keys@.len() implies #[trigger] self@.nodes[keys@[j]]
                    == before[keys@[j]] by {
                    assert(keys@[j] != keys@[i as int]);
                }
            }
            i = i + 1;
        }
        proof {
            let goal = before.map_values(|nodes: Seq<NodeView>| refreshed_all(nodes, world@));
            assert forall|key: u64| before.contains_key(key) implies #[trigger] self@.nodes[key]
                == goal[key] by {
                assert(keys@.to_set().contains(key));
                let j = choose|j: int| 0 <= j < keys@.len() && keys@[j] == key;
                assert(self@.nodes[keys@[j]] == refreshed_all(before[keys@[j]], world@));
            }
            assert(self@.nodes =~= goal);
        }
    }

    /// Queues, for every node of the registry, the three axis segments of
    /// the node's body as `world` holds it: body by body in the order in
    /// which the registry hands its bodies out, and node by node within
    /// a body.
    pub fn draw_positions(&self, window: &mut Scene, world: &HashMap<u64, BodyState>)
        ensures
            exists|order: Seq<u64>|
                {
                    &&& order.no_duplicates()
                    &&& order.to_set() == self@.nodes.dom()
                    &&& final(window)@ == (SceneView {
                        segments: old(window)@.segments + #[trigger] bodies_axes(
                            order,
                            self@.nodes,
                            world@,
                        ),
                        ..old(window)@
                    })
                },
    {
        broadcast use vstd::std_specs::hash::group_hash_axioms;
        let keys = keys_of(&self.rb2sn);
        let mut i: usize = 0;
        assert(window@.segments =~= old(window)@.segments + bodies_axes(
            keys@.take(0),
            self@.nodes,
            world@,
        ));
        while i < keys.len()
            invariant
                i <= keys.len(),
                keys@.to_set() == self.rb2sn@.dom(),
                window@ == (SceneView {
                    segments: old(window)@.segments + bodies_axes(
                        keys@.take(i as int),
                        self@.nodes,
                        world@,
                    ),
                    ..old(window)@
                }),
            decreases keys.len() - i,
        {
            let key = keys[i];
            assert(keys@.to_set().contains(key));
            proof {
                assert(keys@.take(i + 1).drop_last() == keys@.take(i as int));
                assert(keys@.take(i + 1).last() == key);
            }
            match self.rb2sn.get(&key) {
                Some(nodes) => {
                    draw_nodes_axes(window, nodes, world);
                },
                None => {},
            }
            assert(window@.segments =~= old(window)@.segments + bodies_axes(
                keys@.take(i + 1),
                self@.nodes,
                world@,
            ));
            i = i + 1;
        }
        assert(keys@.take(i as int) == keys@);
    }

    /// The node set of the body with key `body`, to read, if the body is
    /// registered.
    pub fn lookup(&self, body: u64) -> (nodes: Option<&Vec<Node>>)
        ensures
            match nodes {
                Some(nodes) => self@.nodes.contains_key(body) && views(nodes@) == self@.nodes[body],
                None => !self@.nodes.contains_key(body),
            },
    {
        broadcast use vstd::std_specs::hash::group_hash_axioms;
        self.rb2sn.get(&body)
    }

    /// The color assigned to the body with key `body`, if one is.
    pub fn color(&self, body: u64) -> (color: Option<Color>)
        ensures
            match color {
                Some(color) => self@.colors.contains_key(body) && color == self@.colors[body],
                None => !self@.colors.contains_key(body),
            },
    {
        broadcast use vstd::std_specs::hash::group_hash_axioms;
        match self.rb2color.get(&body) {
            Some(color) => Some(*color),
            None => None,
        }
    }

    /// Number of registered bodies.
    pub fn len(&self) -> (n: usize)
        ensures
            n == self@.nodes.dom().len(),
    {
        broadcast use vstd::std_specs::hash::group_hash_axioms;
        assert(self@.nodes.dom() =~= self.rb2sn@.dom());
        self.rb2sn.len()
    }

    /// Whether the orbiting camera is the one in use.
    pub fn is_arc_ball(&self) -> (b: bool)
        ensures
            b == self@.curr_is_arc_ball,
    {
        self.curr_is_arc_ball
    }
}

} // verus!
