//! The ways in which opening or playing a track can fail.

use vstd::prelude::*;

verus! {

/// Failures of the player's core. None is retried by the library.
#[derive(Debug, Clone, Copy, PartialEq, Eq, Structural)]
pub enum PlayerError {
    /// The file, or the output device, could not be opened.
    OpenError,
    /// The first frame of a track could not be decoded.
    DecodeError,
    /// The file holds no usable duration and frame count.
    MetadataError,
    /// The output stream could not be built or destroyed.
    StreamError,
}

impl PlayerError {
    /// A short description for the user.
    pub fn message(&self) -> (text: &'static str)
        ensures
            text@ == match *self {
                PlayerError::OpenError => "cannot open the file or the output device"@,
                PlayerError::DecodeError => "cannot decode the first frame"@,
                PlayerError::MetadataError => "no duration or frame count in the file"@,
                PlayerError::StreamError => "cannot build or destroy the output stream"@,
            },
    {
        match self {
            PlayerError::OpenError => "cannot open the file or the output device",
            PlayerError::DecodeError => "cannot decode the first frame",
            PlayerError::MetadataError => "no duration or frame count in the file",
            PlayerError::StreamError => "cannot build or destroy the output stream",
        }
    }
}

} // verus!
