use nphysics_testbed3d::body::Body;
use nphysics_testbed3d::body::BodyState;
use nphysics_testbed3d::camera::Camera;
use nphysics_testbed3d::camera::CameraKind;
use nphysics_testbed3d::math::Color;
use nphysics_testbed3d::math::Frame;
use nphysics_testbed3d::math::Isometry;
use nphysics_testbed3d::math::Point;
use nphysics_testbed3d::math::Rotation;
use nphysics_testbed3d::math::Vector;
use nphysics_testbed3d::math::ONE;
use nphysics_testbed3d::node::Node;
use nphysics_testbed3d::node::NodeKind;
use nphysics_testbed3d::objects::Object;
use nphysics_testbed3d::scene::Geometry;
use nphysics_testbed3d::scene::Scene;
use nphysics_testbed3d::shape::Shape;

fn shift(x: i32) -> Isometry {
    Isometry::new(Vector::new(x, 0, 0), Rotation::identity())
}

fn links_of(frame: &Frame) -> Vec<Isometry> {
    let mut v = Vec::new();
    for i in 0..frame.len() {
        v.push(frame.link(i));
    }
    v
}

fn object(scene: &mut Scene) -> Object {
    let body = Body {
        key: 42,
        state: BodyState { position: shift(1), center_of_mass: Point::new(0, 0, 0) },
        margin: 0,
        can_move: true,
        shape: Shape::Ball { radius: 1 },
    };
    let delta = Frame::identity().extended(shift(2));
    Object::new(scene, &body, delta, Geometry::Sphere { radius: 1 }, Color::new(10, 20, 30))
}

fn all_kinds(scene: &mut Scene) -> Vec<Node> {
    vec![
        Node::Ball(object(scene)),
        Node::Box(object(scene)),
        Node::Cylinder(object(scene)),
        Node::Cone(object(scene)),
        Node::Mesh(object(scene)),
        Node::Plane(object(scene)),
        Node::BezierSurface(object(scene)),
        Node::Convex(object(scene)),
    ]
}

#[test]
fn new_object_stands_at_the_body() {
    let mut scene = Scene::new();
    let o = object(&mut scene);
    assert_eq!(o.body(), 42);
    assert_eq!(o.color(), Color::new(10, 20, 30));
    assert_eq!(o.object().color(), Color::new(10, 20, 30));
    assert_eq!(links_of(o.delta()), vec![shift(2)]);
    assert_eq!(links_of(o.object().transformation()), vec![shift(1), shift(2)]);
    assert_eq!(o.object().handle(), 0);
    assert!(scene.contains(o.object()));
}

#[test]
fn every_kind_answers_alike() {
    let mut scene = Scene::new();
    let mut nodes = all_kinds(&mut scene);
    let kinds = vec![
        NodeKind::Ball,
        NodeKind::Box,
        NodeKind::Cylinder,
        NodeKind::Cone,
        NodeKind::Mesh,
        NodeKind::Plane,
        NodeKind::BezierSurface,
        NodeKind::Convex,
    ];
    for (i, node) in nodes.iter_mut().enumerate() {
        assert_eq!(node.kind(), kinds[i]);
        assert_eq!(node.body(), 42);
        assert_eq!(node.object().handle(), i);
        node.select();
        assert_eq!(node.object().color(), Color::new(ONE, 0, 0));
        assert_eq!(node.data().color(), Color::new(10, 20, 30));
        node.unselect();
        assert_eq!(node.object().color(), Color::new(10, 20, 30));
        let state = BodyState { position: shift(7), center_of_mass: Point::new(0, 0, 0) };
        node.update(&state);
        assert_eq!(links_of(node.object().transformation()), vec![shift(7), shift(2)]);
        assert_eq!(links_of(node.data().delta()), vec![shift(2)]);
        assert_eq!(node.object().color(), Color::new(10, 20, 30));
    }
}

#[test]
fn select_survives_update() {
    let mut scene = Scene::new();
    let mut node = Node::Ball(object(&mut scene));
    node.select();
    node.update(&BodyState { position: shift(5), center_of_mass: Point::new(0, 0, 0) });
    assert_eq!(node.object().color(), Color::new(ONE, 0, 0));
    node.unselect();
    node.unselect();
    assert_eq!(node.object().color(), Color::new(10, 20, 30));
}

#[test]
fn camera_look_at() {
    let mut camera = Camera::new(CameraKind::FirstPerson, Point::new(1, 2, 3), Point::new(4, 5, 6));
    assert_eq!(camera.eye(), Point::new(1, 2, 3));
    assert_eq!(camera.at(), Point::new(4, 5, 6));
    camera.look_at_z(Point::new(7, 8, 9), Point::new(0, 0, 0));
    assert_eq!(camera, Camera { kind: CameraKind::FirstPerson, eye: Point::new(7, 8, 9), at: Point::new(0, 0, 0) });
}
