//! Use Vulkan buffers as video frames, and upload frames as textures.
pub mod buffer;
pub mod frame;
pub mod shape;
pub mod upload;
pub mod vk;

pub use buffer::{Buffer, Reader, Writer};
pub use frame::{Frame, SliceFrame};
pub use shape::BadLength;
