use nphysics_testbed3d::math::Color;
use nphysics_testbed3d::math::Frame;
use nphysics_testbed3d::math::Isometry;
use nphysics_testbed3d::math::Point;
use nphysics_testbed3d::math::Rotation;
use nphysics_testbed3d::math::Vector;
use nphysics_testbed3d::math::HALF;
use nphysics_testbed3d::math::ONE;
use nphysics_testbed3d::math::QUARTER;
use nphysics_testbed3d::scene::Axis;
use nphysics_testbed3d::scene::Geometry;
use nphysics_testbed3d::scene::Scene;
use nphysics_testbed3d::scene::Segment;

fn shift(x: i32) -> Isometry {
    Isometry::new(Vector::new(x, 0, 0), Rotation::identity())
}

fn links_of(frame: &Frame) -> Vec<Isometry> {
    let mut v = Vec::new();
    for i in 0..frame.len() {
        v.push(frame.link(i));
    }
    v
}

#[test]
fn fixed_point_constants() {
    assert_eq!(ONE, 65536);
    assert_eq!(HALF as f64 / ONE as f64, 0.5);
    assert_eq!(QUARTER as f64 / ONE as f64, 0.25);
    assert_eq!(Color::gray(), Color::new(32768, 32768, 32768));
    assert_eq!(Rotation::identity(), Rotation { i: 0, j: 0, k: 0, w: 65536 });
}

#[test]
fn frame_composition_is_concatenation() {
    let a = Frame::identity().extended(shift(1)).extended(shift(2));
    let b = Frame::identity().extended(shift(3));
    let c = Frame::identity().extended(shift(4)).extended(shift(5));
    assert_eq!(links_of(&a.compose(&b)), vec![shift(1), shift(2), shift(3)]);
    assert_eq!(a.compose(&b).compose(&c), a.compose(&b.compose(&c)));
    assert_eq!(a.compose(&Frame::identity()), a);
    assert_eq!(Frame::identity().compose(&a), a);
    assert_eq!(links_of(&a.under(shift(9))), vec![shift(9), shift(1), shift(2)]);
    assert_eq!(a.duplicate(), a);
    assert_eq!(Frame::identity().len(), 0);
}

#[test]
fn scene_hands_out_fresh_handles() {
    let mut scene = Scene::new();
    let a = scene.add(Geometry::Sphere { radius: 1 });
    let b = scene.add(Geometry::Sphere { radius: 2 });
    assert_eq!(a.handle(), 0);
    assert_eq!(b.handle(), 1);
    assert_eq!(a.color(), Color::new(ONE, ONE, ONE));
    assert_eq!(a.transformation().len(), 0);
    assert_eq!(*b.geometry(), Geometry::Sphere { radius: 2 });
    assert_eq!(scene.len(), 2);
    scene.remove(&a);
    assert!(!scene.contains(&a));
    assert!(scene.contains(&b));
    assert_eq!(scene.len(), 1);
    let c = scene.add(Geometry::Sphere { radius: 3 });
    assert_eq!(c.handle(), 2);
    assert_eq!(scene.len(), 2);
}

#[test]
fn removing_twice_changes_nothing() {
    let mut scene = Scene::new();
    let a = scene.add(Geometry::Sphere { radius: 1 });
    let b = scene.add(Geometry::Sphere { radius: 2 });
    scene.remove(&a);
    scene.remove(&a);
    assert_eq!(scene.len(), 1);
    assert!(scene.contains(&b));
    let mut other = Scene::new();
    other.remove(&b);
    assert_eq!(other.len(), 0);
}

#[test]
fn scene_node_setters() {
    let mut scene = Scene::new();
    let mut a = scene.add(Geometry::Plane { normal: Vector::new(0, ONE, 0) });
    a.set_color(Color::new(1, 2, 3));
    a.set_local_transformation(Frame::identity().extended(shift(4)));
    assert_eq!(a.color(), Color::new(1, 2, 3));
    assert_eq!(links_of(a.transformation()), vec![shift(4)]);
    assert_eq!(a.handle(), 0);
    assert_eq!(*a.geometry(), Geometry::Plane { normal: Vector::new(0, ONE, 0) });
}

#[test]
fn segments_last_until_cleared() {
    let mut scene = Scene::new();
    let s = Segment {
        origin: Point::new(1, 2, 3),
        orientation: Rotation::identity(),
        axis: Axis::Y,
        length: QUARTER,
        color: Color::new(0, ONE, 0),
    };
    scene.draw_segment(s);
    scene.draw_segment(s);
    assert_eq!(*scene.segments(), vec![s, s]);
    scene.clear_segments();
    assert_eq!(*scene.segments(), vec![]);
}
