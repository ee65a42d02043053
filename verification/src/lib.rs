//! Hand-off of decoded video frames from a capture thread to a display thread.

pub mod appsink;
pub mod buffer;
pub mod error;
pub mod frame;
pub mod history;
pub mod pipeline;
pub mod sample;
pub mod shared;
pub mod slot;
