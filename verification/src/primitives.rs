//! Values that are mirrored into GPU buffers.

pub mod camera;
pub mod frame;
pub mod instance;
pub mod vertex;

pub use camera::Camera;
pub use frame::FrameUniform;
pub use instance::Instance;
pub use vertex::Vertex;
