//! Triples and quaternions of scalars, as plain records.
//!
//! The crate stores and hands on these values; it does no arithmetic on them.

use vstd::prelude::*;
use crate::scalar::Scalar;

verus! {

/// A point or a direction in space.
#[derive(Clone, Copy, Debug, PartialEq, Eq, Structural)]
pub struct Vec3 {
    pub x: Scalar,
    pub y: Scalar,
    pub z: Scalar,
}

impl Vec3 {
    pub fn new(x: Scalar, y: Scalar, z: Scalar) -> (v: Vec3)
        ensures
            v == (Vec3 { x, y, z }),
    {
        Vec3 { x, y, z }
    }

    /// The triple `(0, 0, 0)`.
    pub open spec fn spec_origin() -> Vec3 {
        Vec3 { x: Scalar::spec_zero(), y: Scalar::spec_zero(), z: Scalar::spec_zero() }
    }

    /// The triple `(0, 0, 0)`.
    #[verifier::when_used_as_spec(spec_origin)]
    pub fn origin() -> (v: Vec3)
        ensures
            v == Vec3::spec_origin(),
    {
        Vec3 { x: Scalar::zero(), y: Scalar::zero(), z: Scalar::zero() }
    }

    /// The unit vector along `+Y`.
    pub open spec fn spec_unit_y() -> Vec3 {
        Vec3 { x: Scalar::spec_zero(), y: Scalar::spec_one(), z: Scalar::spec_zero() }
    }

    /// The unit vector along `+Y`.
    #[verifier::when_used_as_spec(spec_unit_y)]
    pub fn unit_y() -> (v: Vec3)
        ensures
            v == Vec3::spec_unit_y(),
    {
        Vec3 { x: Scalar::zero(), y: Scalar::one(), z: Scalar::zero() }
    }
}

/// An orientation, as the quaternion `w + i·x + j·y + k·z`.
#[derive(Clone, Copy, Debug, PartialEq, Eq, Structural)]
pub struct Quat {
    pub w: Scalar,
    pub i: Scalar,
    pub j: Scalar,
    pub k: Scalar,
}

impl Quat {
    pub fn new(w: Scalar, i: Scalar, j: Scalar, k: Scalar) -> (q: Quat)
        ensures
            q == (Quat { w, i, j, k }),
    {
        Quat { w, i, j, k }
    }

    /// The rotation that turns nothing.
    pub open spec fn spec_identity() -> Quat {
        Quat {
            w: Scalar::spec_one(),
            i: Scalar::spec_zero(),
            j: Scalar::spec_zero(),
            k: Scalar::spec_zero(),
        }
    }

    /// The rotation that turns nothing.
    #[verifier::when_used_as_spec(spec_identity)]
    pub fn identity() -> (q: Quat)
        ensures
            q == Quat::spec_identity(),
    {
        Quat { w: Scalar::one(), i: Scalar::zero(), j: Scalar::zero(), k: Scalar::zero() }
    }
}

} // verus!
