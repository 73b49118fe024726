//! Calibrated, synchronised imagery from one camera or from a stereo pair.
//!
//! The crate holds the decisions of a camera stream: which intrinsics model a
//! set of rectification parameters selects, which source samples every pixel of
//! a rectified image is made of, how a capture worker answers its commands, how
//! a stereo stream pairs the answers of its two workers, and in which order a
//! stream is built and shut down.
//!
//! Devices, threads and floating-point arithmetic stay with the caller. Real
//! numbers pass through the crate as IEEE-754 bit patterns, and the numeric
//! kernels (where a pixel's light comes from, how three samples blend) are
//! functions that the caller hands in. Whatever waits on the outside world is a
//! state machine here: its step takes what just happened and says what to do
//! next, and the caller performs it.

pub mod builder;
pub mod camstream;
pub mod error;
pub mod image;
pub mod numeric;
pub mod prelude;
pub mod rectification;
pub mod worker;

pub use crate::builder::{CamStreamBuilder, Rectifiable};
pub use crate::camstream::StereoFrame;
pub use crate::error::Error;
pub use crate::image::{GrayFloatImage, GrayImage, Image};
