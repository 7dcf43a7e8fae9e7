//! Fixed-point geometry: every length, mass and coefficient is an integer
//! count of millionths of its unit (a metre, a kilogram, a unit quaternion
//! component), so scenes are described exactly and compared exactly.
use vstd::prelude::*;

verus! {

/// One unit (a metre, a kilogram, a coefficient of 1) in fixed-point counts.
pub const UNIT: i64 = 1_000_000;

/// A vector in fixed-point millionths.
#[derive(Clone, Copy, Debug, PartialEq, Eq, Structural)]
pub struct Vec3 {
    pub x: i64,
    pub y: i64,
    pub z: i64,
}

/// A rotation as a quaternion whose components are fixed-point millionths.
#[derive(Clone, Copy, Debug, PartialEq, Eq, Structural)]
pub struct Quat {
    pub x: i64,
    pub y: i64,
    pub z: i64,
    pub w: i64,
}

/// Position and orientation, relative to whatever frame holds it.
#[derive(Clone, Copy, Debug, PartialEq, Eq, Structural)]
pub struct Transform {
    pub translation: Vec3,
    pub rotation: Quat,
}

/// The geometry of one collider.
#[derive(Clone, Copy, Debug, PartialEq, Eq, Structural)]
pub enum Shape {
    Cuboid { half_extents: Vec3 },
    Ball { radius: i64 },
}

pub open spec fn zero_vec() -> Vec3 {
    Vec3 { x: 0, y: 0, z: 0 }
}

pub open spec fn identity_transform() -> Transform {
    Transform { translation: zero_vec(), rotation: Quat { x: 0, y: 0, z: 0, w: UNIT } }
}

/// A shape is usable when every half extent, or the radius, is positive.
pub open spec fn shape_ok(s: Shape) -> bool {
    match s {
        Shape::Cuboid { half_extents } => half_extents.x > 0 && half_extents.y > 0
            && half_extents.z > 0,
        Shape::Ball { radius } => radius > 0,
    }
}

impl Vec3 {
    pub fn new(x: i64, y: i64, z: i64) -> (r: Vec3)
        ensures
            r == (Vec3 { x, y, z }),
    {
        Vec3 { x, y, z }
    }

    pub fn zero() -> (r: Vec3)
        ensures
            r == zero_vec(),
    {
        Vec3 { x: 0, y: 0, z: 0 }
    }
}

impl Transform {
    /// Zero translation and the identity rotation.
    pub fn identity() -> (r: Transform)
        ensures
            r == identity_transform(),
    {
        Transform { translation: Vec3::zero(), rotation: Quat { x: 0, y: 0, z: 0, w: UNIT } }
    }

    /// A pure translation, with the identity rotation.
    pub fn from_xyz(x: i64, y: i64, z: i64) -> (r: Transform)
        ensures
            r.translation == (Vec3 { x, y, z }),
            r.rotation == identity_transform().rotation,
    {
        Transform { translation: Vec3::new(x, y, z), rotation: Quat { x: 0, y: 0, z: 0, w: UNIT } }
    }
}

impl Shape {
    pub fn cuboid(hx: i64, hy: i64, hz: i64) -> (r: Shape)
        ensures
            r == (Shape::Cuboid { half_extents: Vec3 { x: hx, y: hy, z: hz } }),
    {
        Shape::Cuboid { half_extents: Vec3::new(hx, hy, hz) }
    }

    pub fn ball(radius: i64) -> (r: Shape)
        ensures
            r == (Shape::Ball { radius }),
    {
        Shape::Ball { radius }
    }

    /// Whether every dimension of the shape is positive.
    pub fn is_valid(&self) -> (r: bool)
        ensures
            r == shape_ok(*self),
    {
        match self {
            Shape::Cuboid { half_extents } => half_extents.x > 0 && half_extents.y > 0
                && half_extents.z > 0,
            Shape::Ball { radius } => *radius > 0,
        }
    }
}

} // verus!
