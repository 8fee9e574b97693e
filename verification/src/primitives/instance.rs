//! Per-instance placement of the mesh.

use vstd::prelude::*;
use crate::primitives::vertex::Vector3;
use crate::primitives::vertex::UNIT;

verus! {

/// A rotation as a quaternion, scalar part first, each part in thousandths.
#[derive(Debug, Clone, Copy, PartialEq, Eq)]
pub struct Quaternion {
    pub s: i32,
    pub v: Vector3,
}

/// Where one copy of the mesh stands and how it is turned.
#[derive(Debug, Clone, Copy, PartialEq, Eq)]
pub struct Instance {
    pub position: Vector3,
    pub rotation: Quaternion,
}

/// The rotation that turns nothing.
pub open spec fn identity_rotation() -> Quaternion {
    Quaternion { s: UNIT, v: Vector3 { x: 0, y: 0, z: 0 } }
}

impl Quaternion {
    /// The rotation that turns nothing.
    pub fn identity() -> (rotation: Quaternion)
        ensures
            rotation == identity_rotation(),
    {
        Quaternion { s: UNIT, v: Vector3 { x: 0, y: 0, z: 0 } }
    }
}

} // verus!
