//! Plain numeric values shared by the whole crate.
//!
//! Every scalar is a signed fixed-point number with sixteen fractional bits,
//! so `65536` stands for one unit and `32768` for one half.  Shape dimensions
//! and coordinates are `i32`; a dimension that results from adding two of them
//! is `i64`, which cannot overflow.
//!
//! Rigid transforms are never multiplied out here.  A [`Frame`] records the
//! product `t0 * t1 * ... * tn` as the sequence of its factors, outermost
//! first, so that composition is concatenation and is exact.

use vstd::prelude::*;

verus! {

/// One unit in fixed point.
pub const ONE: i32 = 65536;

/// One half in fixed point.
pub const HALF: i32 = 32768;

/// One quarter in fixed point.
pub const QUARTER: i32 = 16384;

/// A position in space.
#[derive(Clone, Copy, Debug, PartialEq, Eq)]
pub struct Point {
    pub x: i32,
    pub y: i32,
    pub z: i32,
}

/// A direction or an extent along the three axes.
#[derive(Clone, Copy, Debug, PartialEq, Eq)]
pub struct Vector {
    pub x: i32,
    pub y: i32,
    pub z: i32,
}

/// A rotation, stored as the four components of a unit quaternion.
#[derive(Clone, Copy, Debug, PartialEq, Eq)]
pub struct Rotation {
    pub i: i32,
    pub j: i32,
    pub k: i32,
    pub w: i32,
}

/// A rigid transform: a rotation followed by a translation.
#[derive(Clone, Copy, Debug, PartialEq, Eq)]
pub struct Isometry {
    pub translation: Vector,
    pub rotation: Rotation,
}

/// A display color; each channel runs from `0` to [`ONE`].
#[derive(Clone, Copy, Debug, PartialEq, Eq)]
pub struct Color {
    pub r: i32,
    pub g: i32,
    pub b: i32,
}

impl Point {
    pub fn new(x: i32, y: i32, z: i32) -> (p: Point)
        ensures
            p == (Point { x, y, z }),
    {
        Point { x, y, z }
    }
}

impl Vector {
    pub fn new(x: i32, y: i32, z: i32) -> (v: Vector)
        ensures
            v == (Vector { x, y, z }),
    {
        Vector { x, y, z }
    }
}

impl Rotation {
    /// The rotation that turns nothing.
    pub open spec fn spec_identity() -> Rotation {
        Rotation { i: 0, j: 0, k: 0, w: ONE }
    }

    #[verifier::when_used_as_spec(spec_identity)]
    pub fn identity() -> (r: Rotation)
        ensures
            r == Rotation::spec_identity(),
    {
        Rotation { i: 0, j: 0, k: 0, w: ONE }
    }
}

impl Isometry {
    pub fn new(translation: Vector, rotation: Rotation) -> (t: Isometry)
        ensures
            t == (Isometry { translation, rotation }),
    {
        Isometry { translation, rotation }
    }
}

impl Color {
    pub fn new(r: i32, g: i32, b: i32) -> (c: Color)
        ensures
            c == (Color { r, g, b }),
    {
        Color { r, g, b }
    }

    /// The neutral gray given to bodies that cannot move.
    pub open spec fn spec_gray() -> Color {
        Color { r: HALF, g: HALF, b: HALF }
    }

    #[verifier::when_used_as_spec(spec_gray)]
    pub fn gray() -> (c: Color)
        ensures
            c == Color::spec_gray(),
    {
        Color { r: HALF, g: HALF, b: HALF }
    }
}

/// A product of rigid transforms, kept as the list of its factors.
#[derive(Debug, PartialEq, Eq)]
pub struct Frame {
    links: Vec<Isometry>,
}

impl View for Frame {
    type V = Seq<Isometry>;

    closed spec fn view(&self) -> Seq<Isometry> {
        self.links@
    }
}

impl Frame {
    /// The empty product, which leaves every point where it is.
    pub fn identity() -> (f: Frame)
        ensures
            f@ == Seq::<Isometry>::empty(),
    {
        Frame { links: Vec::new() }
    }

    /// Number of factors.
    pub fn len(&self) -> (n: usize)
        ensures
            n == self@.len(),
    {
        self.links.len()
    }

    /// The factor at position `i`, counted from the outermost.
    pub fn link(&self, i: usize) -> (t: Isometry)
        requires
            i < self@.len(),
        ensures
            t == self@[i as int],
    {
        self.links[i]
    }

    /// The product `self * other`.
    pub fn compose(&self, other: &Frame) -> (f: Frame)
        ensures
            f@ == self@ + other@,
    {
        let mut links: Vec<Isometry> = Vec::new();
        let mut i: usize = 0;
        while i < self.links.len()
            invariant
                i <= self.links.len(),
                links@ == self.links@.take(i as int),
            decreases self.links.len() - i,
        {
            links.push(self.links[i]);
            i = i + 1;
        }
        let mut j: usize = 0;
        while j < other.links.len()
            invariant
                j <= other.links.len(),
                links@ == self.links@ + other.links@.take(j as int),
            decreases other.links.len() - j,
        {
            links.push(other.links[j]);
            j = j + 1;
        }
        Frame { links }
    }

    /// The product `self * local`: one more factor on the inner side.
    pub fn extended(&self, local: Isometry) -> (f: Frame)
        ensures
            f@ == self@.push(local),
    {
        let mut links: Vec<Isometry> = Vec::new();
        let mut i: usize = 0;
        while i < self.links.len()
            invariant
                i <= self.links.len(),
                links@ == self.links@.take(i as int),
            decreases self.links.len() - i,
        {
            links.push(self.links[i]);
            i = i + 1;
        }
        links.push(local);
        Frame { links }
    }

    /// The product `outer * self`: one more factor on the outer side.
    pub fn under(&self, outer: Isometry) -> (f: Frame)
        ensures
            f@ == seq![outer] + self@,
    {
        let mut links: Vec<Isometry> = Vec::new();
        links.push(outer);
        let mut i: usize = 0;
        while i < self.links.len()
            invariant
                i <= self.links.len(),
                links@ == seq![outer] + self.links@.take(i as int),
            decreases self.links.len() - i,
        {
            links.push(self.links[i]);
            i = i + 1;
        }
        Frame { links }
    }

    /// A copy with the same factors.
    pub fn duplicate(&self) -> (f: Frame)
        ensures
            f@ == self@,
    {
        let mut links: Vec<Isometry> = Vec::new();
        let mut i: usize = 0;
        while i < self.links.len()
            invariant
                i <= self.links.len(),
                links@ == self.links@.take(i as int),
            decreases self.links.len() - i,
        {
            links.push(self.links[i]);
            i = i + 1;
        }
        Frame { links }
    }
}

} // verus!
