//! The camera that looks down the ground.

use vstd::prelude::*;
use crate::primitives::vertex::Vector3;

verus! {

/// A perspective camera. Lengths are in thousandths of a world unit and the
/// opening angle in thousandths of a degree; the aspect is kept as the exact
/// ratio of a width to a height in pixels.
#[derive(Debug, Clone, Copy, PartialEq, Eq)]
pub struct Camera {
    pub eye: Vector3,
    pub target: Vector3,
    pub up: Vector3,
    pub aspect_width: u32,
    pub aspect_height: u32,
    pub fovy: i32,
    pub znear: i32,
    pub zfar: i32,
}

/// The camera of the scene for a surface of `width` by `height` pixels: one
/// unit up and two back, looking far down the receding axis.
pub open spec fn scene_camera(width: u32, height: u32) -> Camera {
    Camera {
        eye: Vector3 { x: 0, y: 1000, z: 2000 },
        target: Vector3 { x: 0, y: 0, z: (-100_000) as i32 },
        up: Vector3 { x: 0, y: 1000, z: 0 },
        aspect_width: width,
        aspect_height: height,
        fovy: 45_000,
        znear: 100,
        zfar: 1_000_000,
    }
}

impl Camera {
    /// The camera of the scene for a surface of `width` by `height` pixels.
    pub fn new(width: u32, height: u32) -> (camera: Camera)
        ensures
            camera == scene_camera(width, height),
    {
        Camera {
            eye: Vector3 { x: 0, y: 1000, z: 2000 },
            target: Vector3 { x: 0, y: 0, z: -100_000 },
            up: Vector3 { x: 0, y: 1000, z: 0 },
            aspect_width: width,
            aspect_height: height,
            fovy: 45_000,
            znear: 100,
            zfar: 1_000_000,
        }
    }
}

} // verus!
