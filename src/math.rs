//! Fixed-point geometric quantities exchanged between bodies, parts and joints.
use vstd::prelude::*;

verus! {

/// The fixed-point scale: the scalar `UNIT` stands for one unit of the reference scale.
pub const UNIT: i64 = 1_000_000;

/// A vector of three fixed-point scalars.
#[derive(Copy, Clone, PartialEq, Eq, Hash, Debug, Structural)]
pub struct Vector3 {
    pub x: i64,
    pub y: i64,
    pub z: i64,
}

impl Vector3 {
    pub open spec fn spec_zeros() -> Vector3 {
        Vector3 { x: 0, y: 0, z: 0 }
    }

    /// The null vector.
    pub fn zeros() -> (r: Vector3)
        ensures
            r == Vector3::spec_zeros(),
    {
        Vector3 { x: 0, y: 0, z: 0 }
    }
}

/// A point of space, by its coordinates.
#[derive(Copy, Clone, PartialEq, Eq, Hash, Debug, Structural)]
pub struct Point {
    pub coords: Vector3,
}

/// A rotation, as a unit quaternion with fixed-point components.
#[derive(Copy, Clone, PartialEq, Eq, Hash, Debug, Structural)]
pub struct Rotation {
    pub w: i64,
    pub i: i64,
    pub j: i64,
    pub k: i64,
}

/// A rigid displacement: a rotation followed by a translation.
#[derive(Copy, Clone, PartialEq, Eq, Hash, Debug, Structural)]
pub struct Isometry {
    pub translation: Vector3,
    pub rotation: Rotation,
}

/// A 3x3 matrix, row by row.
#[derive(Copy, Clone, PartialEq, Eq, Hash, Debug, Structural)]
pub struct Matrix3 {
    pub row0: Vector3,
    pub row1: Vector3,
    pub row2: Vector3,
}

/// The mass and angular inertia tensor of a rigid part.
#[derive(Copy, Clone, PartialEq, Eq, Hash, Debug, Structural)]
pub struct Inertia {
    pub linear: i64,
    pub angular: Matrix3,
}

/// A spatial velocity: linear and angular parts.
#[derive(Copy, Clone, PartialEq, Eq, Hash, Debug, Structural)]
pub struct Velocity {
    pub linear: Vector3,
    pub angular: Vector3,
}

impl Velocity {
    pub open spec fn spec_zero() -> Velocity {
        Velocity { linear: Vector3::spec_zeros(), angular: Vector3::spec_zeros() }
    }

    /// The velocity of a part at rest.
    pub fn zero() -> (r: Velocity)
        ensures
            r == Velocity::spec_zero(),
    {
        Velocity { linear: Vector3::zeros(), angular: Vector3::zeros() }
    }
}

/// A spatial force: linear force and torque.
#[derive(Copy, Clone, PartialEq, Eq, Hash, Debug, Structural)]
pub struct Force {
    pub linear: Vector3,
    pub angular: Vector3,
}

impl Force {
    pub open spec fn spec_zero() -> Force {
        Force { linear: Vector3::spec_zeros(), angular: Vector3::spec_zeros() }
    }

    /// The null force.
    pub fn zero() -> (r: Force)
        ensures
            r == Force::spec_zero(),
    {
        Force { linear: Vector3::zeros(), angular: Vector3::zeros() }
    }
}

} // verus!
