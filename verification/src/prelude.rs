//! What most users of the crate need.

pub use crate::builder::{CamStreamBuilder, Rectifiable};
pub use crate::camstream::StereoFrame;
