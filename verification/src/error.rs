//! What can go wrong while previews are made.

use vstd::prelude::*;

verus! {

/// A failure of the decode pipeline, by the step that failed.
#[derive(Clone, Copy, Debug, PartialEq, Eq, Structural)]
pub enum GStreamerError {
    /// The source could not be opened or the pipeline not be built.
    OpenFailed,
    /// The pipeline refused to pause.
    StateChangeFailed,
    /// The pipeline refused to seek.
    SeekFailed,
    /// No frame came out of the pipeline, or not a whole one.
    FrameUnavailable,
}

/// A failure to make a preview.
#[derive(Clone, Copy, Debug, PartialEq, Eq, Structural)]
pub enum Error {
    /// The decode pipeline failed.
    GStreamerError(GStreamerError),
    /// The video has no duration: there is nothing to preview.
    ThumbnailEmptyVideo,
    /// The frame size or the downscale factor is not usable.
    InvalidSize,
    /// A file could not be written.
    IO,
}

impl GStreamerError {
    /// What the failure is called in messages.
    pub open spec fn spec_message(self) -> Seq<char> {
        match self {
            GStreamerError::OpenFailed => "Could not open the video"@,
            GStreamerError::StateChangeFailed => "Could not change the pipeline state"@,
            GStreamerError::SeekFailed => "Could not seek in the video"@,
            GStreamerError::FrameUnavailable => "Could not pull a frame from the video"@,
        }
    }

    /// A message for the user.
    pub fn message(&self) -> (text: String)
        ensures
            text@ == self.spec_message(),
    {
        match self {
            GStreamerError::OpenFailed => String::from_str("Could not open the video"),
            GStreamerError::StateChangeFailed => String::from_str(
                "Could not change the pipeline state",
            ),
            GStreamerError::SeekFailed => String::from_str("Could not seek in the video"),
            GStreamerError::FrameUnavailable => String::from_str(
                "Could not pull a frame from the video",
            ),
        }
    }
}

impl Error {
    /// What the failure is called in messages.
    pub open spec fn spec_message(self) -> Seq<char> {
        match self {
            Error::GStreamerError(error) => error.spec_message(),
            Error::ThumbnailEmptyVideo => "Tried creating a thumbnail for an empty Video"@,
            Error::InvalidSize => "Tried creating a thumbnail of an unusable size"@,
            Error::IO => "Could not write the thumbnail"@,
        }
    }

    /// A message for the user.
    pub fn message(&self) -> (text: String)
        ensures
            text@ == self.spec_message(),
    {
        match self {
            Error::GStreamerError(error) => error.message(),
            Error::ThumbnailEmptyVideo => String::from_str(
                "Tried creating a thumbnail for an empty Video",
            ),
            Error::InvalidSize => String::from_str(
                "Tried creating a thumbnail of an unusable size",
            ),
            Error::IO => String::from_str("Could not write the thumbnail"),
        }
    }
}

impl From<GStreamerError> for Error {
    fn from(value: GStreamerError) -> (error: Error)
        ensures
            error == Error::GStreamerError(value),
    {
        Error::GStreamerError(value)
    }
}

impl vstd::std_specs::convert::FromSpecImpl<GStreamerError> for Error {
    open spec fn obeys_from_spec() -> bool {
        true
    }

    open spec fn from_spec(value: GStreamerError) -> Error {
        Error::GStreamerError(value)
    }
}

} // verus!
