//! The errors of a camera stream.

use vstd::prelude::*;
use crate::numeric::Double;

verus! {

/// What can go wrong while a camera stream is built or used.
///
/// Failures of a device, a decoder or a file reader arrive as the text that
/// the failing party reported.
#[derive(Debug)]
pub enum Error {
    /// No file exists at the path.
    FileNotFound(String),
    /// The rectification parameters could not be read from their file.
    DeserialisationError(String),
    /// The parameters carry a distortion coefficient (it is enclosed), which
    /// plain pinhole intrinsics would silently drop.
    RectifToCamIntrisicsError(Option<Double>),
    /// The parameters carry no distortion coefficient.
    RectifToCamIntrisicsK1DistortionError,
    /// The camera did not deliver a frame.
    CameraCaptureError(String),
    /// A frame could not be decoded into an image.
    ImageConversionError(String),
    /// The stream could not be assembled.
    CamStreamBuildError(String),
    /// A camera refused to start streaming.
    CamStartError(String),
    /// No decoder is known for the enclosed FourCC code.
    ImageFormatError(Vec<u8>),
    /// A worker hung up before it answered.
    ChannelReceiveError,
    /// A worker hung up before it could be told what to do.
    ChannelSendError,
    /// A worker thread did not end cleanly.
    ThreadJoinError,
}

} // verus!
