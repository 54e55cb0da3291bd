use std::collections::HashMap;

use nphysics_testbed3d::body::Body;
use nphysics_testbed3d::body::BodyState;
use nphysics_testbed3d::camera::CameraKind;
use nphysics_testbed3d::colors::ColorStream;
use nphysics_testbed3d::engine::GraphicsManager;
use nphysics_testbed3d::math::Color;
use nphysics_testbed3d::math::Frame;
use nphysics_testbed3d::math::Isometry;
use nphysics_testbed3d::math::Point;
use nphysics_testbed3d::math::Rotation;
use nphysics_testbed3d::math::Vector;
use nphysics_testbed3d::math::ONE;
use nphysics_testbed3d::math::QUARTER;
use nphysics_testbed3d::node::NodeKind;
use nphysics_testbed3d::scene::Axis;
use nphysics_testbed3d::scene::Geometry;
use nphysics_testbed3d::scene::Scene;
use nphysics_testbed3d::scene::Segment;
use nphysics_testbed3d::shape::Part;
use nphysics_testbed3d::shape::Shape;

fn shift(x: i32, y: i32, z: i32) -> Isometry {
    Isometry::new(Vector::new(x, y, z), Rotation::identity())
}

fn links_of(frame: &Frame) -> Vec<Isometry> {
    let mut v = Vec::new();
    for i in 0..frame.len() {
        v.push(frame.link(i));
    }
    v
}

fn state(x: i32) -> BodyState {
    BodyState { position: shift(x, 0, 0), center_of_mass: Point::new(x, 1, 2) }
}

fn ball(key: u64, can_move: bool) -> Body {
    Body { key, state: state(0), margin: 2621, can_move, shape: Shape::Ball { radius: 32768 } }
}

fn cross(key: u64, can_move: bool) -> Body {
    let arm = |x: i32, y: i32| Part {
        local: shift(x, y, 0),
        shape: Shape::Cuboid { half_extents: Vector::new(325059, 13763, 13763) },
    };
    Body {
        key,
        state: state(0),
        margin: 2621,
        can_move,
        shape: Shape::Compound { parts: vec![arm(0, -327680), arm(-327680, 0), arm(327680, 0)] },
    }
}

fn colors_of(manager: &GraphicsManager, key: u64) -> Vec<Color> {
    manager.lookup(key).unwrap().iter().map(|n| n.data().color()).collect()
}

#[test]
fn new_manager_is_empty() {
    let mut manager = GraphicsManager::new();
    assert_eq!(manager.len(), 0);
    assert!(manager.lookup(1).is_none());
    assert!(manager.color(1).is_none());
    assert!(manager.is_arc_ball());
    let camera = *manager.camera();
    assert_eq!(camera.kind, CameraKind::ArcBall);
    assert_eq!(camera.eye, Point::new(655360, 655360, 655360));
    assert_eq!(camera.at, Point::new(0, 0, 0));
    manager.switch_cameras();
    let camera = *manager.camera();
    assert_eq!(camera.kind, CameraKind::FirstPerson);
    assert_eq!(camera.eye, Point::new(655360, 655360, 655360));
    assert_eq!(camera.at, Point::new(0, 0, 0));
}

#[test]
fn add_makes_one_node_per_leaf() {
    let mut manager = GraphicsManager::new();
    let mut window = Scene::new();
    manager.add(&mut window, &cross(1, true));
    manager.add(&mut window, &ball(2, true));
    assert_eq!(manager.len(), 2);
    let nodes = manager.lookup(1).unwrap();
    assert_eq!(nodes.len(), 3);
    for (i, node) in nodes.iter().enumerate() {
        assert_eq!(node.kind(), NodeKind::Box);
        assert_eq!(node.body(), 1);
        assert_eq!(node.object().handle(), i);
        assert_eq!(
            *node.object().geometry(),
            Geometry::Cuboid { half_x: 327680, half_y: 16384, half_z: 16384 }
        );
    }
    assert_eq!(links_of(nodes[0].data().delta()), vec![shift(0, -327680, 0)]);
    assert_eq!(links_of(nodes[1].data().delta()), vec![shift(-327680, 0, 0)]);
    assert_eq!(links_of(nodes[2].data().delta()), vec![shift(327680, 0, 0)]);
    let nodes = manager.lookup(2).unwrap();
    assert_eq!(nodes.len(), 1);
    assert_eq!(nodes[0].object().handle(), 3);
    assert_eq!(*nodes[0].object().geometry(), Geometry::Sphere { radius: 35389 });
    assert_eq!(window.len(), 4);
}

#[test]
fn static_body_is_gray() {
    let mut manager = GraphicsManager::new();
    let mut window = Scene::new();
    manager.add(&mut window, &cross(1, false));
    let gray = Color::new(32768, 32768, 32768);
    assert_eq!(colors_of(&manager, 1), vec![gray, gray, gray]);
    for node in manager.lookup(1).unwrap() {
        assert_eq!(node.object().color(), gray);
    }
    assert!(manager.color(1).is_none());
}

#[test]
fn static_body_takes_no_color_from_the_stream() {
    let mut a = GraphicsManager::new();
    let mut b = GraphicsManager::new();
    let mut window = Scene::new();
    a.add(&mut window, &ball(1, false));
    a.add(&mut window, &ball(2, true));
    b.add(&mut window, &ball(2, true));
    assert_eq!(colors_of(&a, 2), colors_of(&b, 2));
}

#[test]
fn movable_bodies_take_the_colors_of_the_stream() {
    let mut stream = ColorStream::new(0, 2, 4, 8);
    stream.skip(100);
    let first = stream.next_color();
    let second = stream.next_color();
    assert!(first != second);
    let mut manager = GraphicsManager::new();
    let mut window = Scene::new();
    manager.add(&mut window, &cross(1, true));
    manager.add(&mut window, &ball(2, true));
    assert_eq!(colors_of(&manager, 1), vec![first, first, first]);
    assert_eq!(colors_of(&manager, 2), vec![second]);
}

#[test]
fn two_managers_give_the_same_colors() {
    let mut a = GraphicsManager::new();
    let mut b = GraphicsManager::new();
    let mut window = Scene::new();
    for key in 0..20 {
        a.add(&mut window, &ball(key, true));
        b.add(&mut window, &ball(key, true));
        assert_eq!(colors_of(&a, key), colors_of(&b, key));
    }
}

#[test]
fn assigned_color_outlives_removal() {
    let c = Color::new(100, 200, 300);
    let mut manager = GraphicsManager::new();
    let mut window = Scene::new();
    manager.set_color(1, c);
    manager.add(&mut window, &cross(1, true));
    assert_eq!(colors_of(&manager, 1), vec![c, c, c]);
    manager.remove(&mut window, 1);
    assert!(manager.lookup(1).is_none());
    assert_eq!(manager.color(1), Some(c));
    manager.add(&mut window, &cross(1, true));
    assert_eq!(colors_of(&manager, 1), vec![c, c, c]);
    manager.clear(&mut window);
    assert_eq!(manager.color(1), Some(c));
    manager.add(&mut window, &cross(1, false));
    assert_eq!(colors_of(&manager, 1), vec![c, c, c]);
}

#[test]
fn assigned_color_takes_nothing_from_the_stream() {
    let mut a = GraphicsManager::new();
    let mut b = GraphicsManager::new();
    let mut window = Scene::new();
    a.set_color(1, Color::new(1, 1, 1));
    a.add(&mut window, &ball(1, true));
    a.add(&mut window, &ball(2, true));
    b.add(&mut window, &ball(2, true));
    assert_eq!(colors_of(&a, 2), colors_of(&b, 2));
}

#[test]
fn set_color_leaves_existing_nodes() {
    let mut manager = GraphicsManager::new();
    let mut window = Scene::new();
    manager.add(&mut window, &ball(1, false));
    manager.set_color(1, Color::new(5, 6, 7));
    assert_eq!(colors_of(&manager, 1), vec![Color::gray()]);
    manager.set_color(1, Color::new(8, 9, 10));
    assert_eq!(manager.color(1), Some(Color::new(8, 9, 10)));
}

#[test]
fn add_with_color_passes_the_assigned_color_by() {
    let mut manager = GraphicsManager::new();
    let mut window = Scene::new();
    manager.set_color(1, Color::new(5, 6, 7));
    manager.add_with_color(&mut window, &ball(1, true), Color::new(9, 9, 9));
    assert_eq!(colors_of(&manager, 1), vec![Color::new(9, 9, 9)]);
    assert_eq!(manager.color(1), Some(Color::new(5, 6, 7)));
}

#[test]
fn adding_again_rebuilds_and_leaves_the_old_scene_nodes() {
    let mut manager = GraphicsManager::new();
    let mut window = Scene::new();
    manager.add(&mut window, &cross(1, false));
    manager.add(&mut window, &ball(1, false));
    assert_eq!(manager.len(), 1);
    let nodes = manager.lookup(1).unwrap();
    assert_eq!(nodes.len(), 1);
    assert_eq!(nodes[0].object().handle(), 3);
    assert_eq!(window.len(), 4);
    manager.remove(&mut window, 1);
    assert_eq!(window.len(), 3);
}

#[test]
fn remove_of_an_unknown_body_changes_nothing() {
    let mut manager = GraphicsManager::new();
    let mut window = Scene::new();
    manager.add(&mut window, &cross(1, false));
    manager.remove(&mut window, 2);
    assert_eq!(manager.len(), 1);
    assert_eq!(manager.lookup(1).unwrap().len(), 3);
    assert_eq!(window.len(), 3);
    manager.remove(&mut window, 1);
    manager.remove(&mut window, 1);
    assert_eq!(manager.len(), 0);
    assert_eq!(window.len(), 0);
}

#[test]
fn remove_detaches_only_the_nodes_of_the_body() {
    let mut manager = GraphicsManager::new();
    let mut window = Scene::new();
    let stray = window.add(Geometry::Sphere { radius: 1 });
    manager.add(&mut window, &cross(1, false));
    manager.add(&mut window, &ball(2, false));
    manager.remove(&mut window, 1);
    assert_eq!(window.len(), 2);
    assert!(window.contains(&stray));
    assert!(window.contains(manager.lookup(2).unwrap()[0].object()));
}

#[test]
fn clear_empties_registry_and_scene() {
    let mut manager = GraphicsManager::new();
    let mut window = Scene::new();
    for key in 0..10 {
        manager.add(&mut window, &cross(key, key % 2 == 0));
    }
    assert_eq!(window.len(), 30);
    manager.clear(&mut window);
    assert_eq!(manager.len(), 0);
    for key in 0..10 {
        assert!(manager.lookup(key).is_none());
        assert!(manager.body_to_scene_node(key).is_none());
    }
    assert_eq!(window.len(), 0);
    manager.clear(&mut window);
    assert_eq!(window.len(), 0);
}

#[test]
fn clear_leaves_foreign_scene_nodes() {
    let mut manager = GraphicsManager::new();
    let mut window = Scene::new();
    let stray = window.add(Geometry::Sphere { radius: 1 });
    manager.add(&mut window, &cross(1, false));
    manager.clear(&mut window);
    assert_eq!(window.len(), 1);
    assert!(window.contains(&stray));
}

#[test]
fn draw_moves_every_node_to_its_body() {
    let mut manager = GraphicsManager::new();
    let mut window = Scene::new();
    manager.add(&mut window, &cross(1, true));
    manager.add(&mut window, &ball(2, true));
    manager.add(&mut window, &ball(3, true));
    let mut world = HashMap::new();
    world.insert(1, state(10));
    world.insert(2, state(20));
    manager.draw(&world);
    let nodes = manager.lookup(1).unwrap();
    assert_eq!(links_of(nodes[0].object().transformation()), vec![shift(10, 0, 0), shift(0, -327680, 0)]);
    assert_eq!(links_of(nodes[1].object().transformation()), vec![shift(10, 0, 0), shift(-327680, 0, 0)]);
    assert_eq!(links_of(nodes[2].object().transformation()), vec![shift(10, 0, 0), shift(327680, 0, 0)]);
    let nodes = manager.lookup(2).unwrap();
    assert_eq!(links_of(nodes[0].object().transformation()), vec![shift(20, 0, 0)]);
    let nodes = manager.lookup(3).unwrap();
    assert_eq!(links_of(nodes[0].object().transformation()), vec![shift(0, 0, 0)]);
    assert_eq!(manager.len(), 3);
}

#[test]
fn draw_positions_queues_three_axes_per_node() {
    let mut manager = GraphicsManager::new();
    let mut window = Scene::new();
    manager.add(&mut window, &cross(1, true));
    let mut world = HashMap::new();
    world.insert(1, state(10));
    manager.draw_positions(&mut window, &world);
    let axis = |axis: Axis, color: Color| Segment {
        origin: Point::new(10, 1, 2),
        orientation: Rotation::identity(),
        axis,
        length: QUARTER,
        color,
    };
    let three = vec![
        axis(Axis::X, Color::new(ONE, 0, 0)),
        axis(Axis::Y, Color::new(0, ONE, 0)),
        axis(Axis::Z, Color::new(0, 0, ONE)),
    ];
    let mut expected = Vec::new();
    for _ in 0..3 {
        expected.extend(three.iter().copied());
    }
    assert_eq!(*window.segments(), expected);
    assert_eq!(window.len(), 3);
    window.clear_segments();
    manager.draw_positions(&mut window, &HashMap::new());
    assert_eq!(*window.segments(), vec![]);
}

#[test]
fn draw_positions_visits_every_body_once() {
    let mut manager = GraphicsManager::new();
    let mut window = Scene::new();
    let mut world = HashMap::new();
    for key in 0..5u64 {
        manager.add(&mut window, &ball(key, true));
        world.insert(key, state(key as i32));
    }
    manager.draw_positions(&mut window, &world);
    let segments = window.segments();
    assert_eq!(segments.len(), 15);
    for key in 0..5 {
        let of_body: Vec<Axis> =
            segments.iter().filter(|s| s.origin.x == key).map(|s| s.axis).collect();
        assert_eq!(of_body, vec![Axis::X, Axis::Y, Axis::Z]);
    }
}

#[test]
fn two_switches_bring_the_camera_back() {
    let mut manager = GraphicsManager::new();
    manager.camera().look_at_z(Point::new(1, 2, 3), Point::new(4, 5, 6));
    let before = *manager.camera();
    manager.switch_cameras();
    assert!(!manager.is_arc_ball());
    let other = *manager.camera();
    assert_eq!(other.kind, CameraKind::FirstPerson);
    assert_eq!(other.eye, before.eye);
    assert_eq!(other.at, before.at);
    manager.switch_cameras();
    assert!(manager.is_arc_ball());
    assert_eq!(*manager.camera(), before);
}

#[test]
fn switch_carries_the_state_of_the_camera_in_use() {
    let mut manager = GraphicsManager::new();
    manager.switch_cameras();
    manager.camera().look_at_z(Point::new(7, 7, 7), Point::new(8, 8, 8));
    manager.switch_cameras();
    let camera = *manager.camera();
    assert_eq!(camera.kind, CameraKind::ArcBall);
    assert_eq!(camera.eye, Point::new(7, 7, 7));
    assert_eq!(camera.at, Point::new(8, 8, 8));
}

#[test]
fn look_at_places_both_cameras() {
    let mut manager = GraphicsManager::new();
    manager.look_at(Point::new(-30, 30, -30), Point::new(0, 0, 0));
    assert_eq!(manager.camera().eye(), Point::new(-30, 30, -30));
    manager.switch_cameras();
    assert_eq!(manager.camera().eye(), Point::new(-30, 30, -30));
    assert_eq!(manager.camera().at(), Point::new(0, 0, 0));
}

#[test]
fn scene_nodes_can_be_selected_through_the_registry() {
    let mut manager = GraphicsManager::new();
    let mut window = Scene::new();
    manager.add(&mut window, &cross(1, false));
    for node in manager.body_to_scene_node(1).unwrap().iter_mut() {
        node.select();
    }
    for node in manager.lookup(1).unwrap() {
        assert_eq!(node.object().color(), Color::new(ONE, 0, 0));
        assert_eq!(node.data().color(), Color::gray());
    }
    manager.body_to_scene_node(1).unwrap()[1].unselect();
    assert_eq!(manager.lookup(1).unwrap()[1].object().color(), Color::gray());
    assert_eq!(manager.lookup(1).unwrap()[0].object().color(), Color::new(ONE, 0, 0));
}
