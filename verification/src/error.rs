//! The errors that an analysis or a lookup can end in.

use vstd::prelude::*;

verus! {

/// Why a request failed. Each variant carries the text of the underlying
/// cause.
#[derive(Debug)]
pub enum AudioError {
    /// The source file or its metadata could not be read.
    Io(String),
    /// The decoder could not be set up for the track's codec.
    Symphonia(String),
    /// The bytes are no audio that the prober knows, the container has no
    /// default track, or the track lacks its sample rate or frame count.
    InvalidAudioFile(String),
    /// Nothing is stored under the requested key.
    Cache(String),
    /// The decoder rejected a packet.
    Processing(String),
}

/// The four kinds of failure that a caller has to tell apart.
#[derive(Debug, Clone, Copy, PartialEq, Eq, Structural)]
pub enum ErrorKind {
    IoFailure,
    UnrecognizedOrInvalidAudio,
    DecodeFailure,
    NotFound,
}

/// What an `AudioError` holds, as mathematical values.
pub enum ErrorModel {
    Io(Seq<char>),
    Symphonia(Seq<char>),
    InvalidAudioFile(Seq<char>),
    Cache(Seq<char>),
    Processing(Seq<char>),
}

impl ErrorModel {
    /// The kind of failure that an error of this shape reports.
    pub open spec fn kind_of(&self) -> ErrorKind {
        match self {
            ErrorModel::Io(_) => ErrorKind::IoFailure,
            ErrorModel::InvalidAudioFile(_) => ErrorKind::UnrecognizedOrInvalidAudio,
            ErrorModel::Symphonia(_) => ErrorKind::DecodeFailure,
            ErrorModel::Processing(_) => ErrorKind::DecodeFailure,
            ErrorModel::Cache(_) => ErrorKind::NotFound,
        }
    }
}

impl View for AudioError {
    type V = ErrorModel;

    open spec fn view(&self) -> ErrorModel {
        match self {
            AudioError::Io(s) => ErrorModel::Io(s@),
            AudioError::Symphonia(s) => ErrorModel::Symphonia(s@),
            AudioError::InvalidAudioFile(s) => ErrorModel::InvalidAudioFile(s@),
            AudioError::Cache(s) => ErrorModel::Cache(s@),
            AudioError::Processing(s) => ErrorModel::Processing(s@),
        }
    }
}

impl AudioError {
    /// The text of the underlying cause.
    pub open spec fn detail(&self) -> Seq<char> {
        match self {
            AudioError::Io(s) => s@,
            AudioError::Symphonia(s) => s@,
            AudioError::InvalidAudioFile(s) => s@,
            AudioError::Cache(s) => s@,
            AudioError::Processing(s) => s@,
        }
    }

    /// The kind of failure that this error reports.
    pub open spec fn kind_of(&self) -> ErrorKind {
        self@.kind_of()
    }

    /// What stands before the cause in the error's message.
    pub open spec fn prefix(&self) -> Seq<char> {
        match self {
            AudioError::Io(_) => "IO error: "@,
            AudioError::Symphonia(_) => "Symphonia error: "@,
            AudioError::InvalidAudioFile(_) => "Invalid audio file: "@,
            AudioError::Cache(_) => "Cache error: "@,
            AudioError::Processing(_) => "Processing error: "@,
        }
    }

    /// The message that a user is shown: the stage, then the cause.
    pub open spec fn message_text(&self) -> Seq<char> {
        self.prefix() + self.detail()
    }

    /// The kind of failure that this error reports.
    pub fn kind(&self) -> (kind: ErrorKind)
        ensures
            kind == self.kind_of(),
    {
        match self {
            AudioError::Io(_) => ErrorKind::IoFailure,
            AudioError::InvalidAudioFile(_) => ErrorKind::UnrecognizedOrInvalidAudio,
            AudioError::Symphonia(_) => ErrorKind::DecodeFailure,
            AudioError::Processing(_) => ErrorKind::DecodeFailure,
            AudioError::Cache(_) => ErrorKind::NotFound,
        }
    }

    /// The message that a user is shown: the stage, then the cause.
    pub fn message(&self) -> (text: String)
        ensures
            text@ == self.message_text(),
    {
        match self {
            AudioError::Io(s) => String::from_str("IO error: ").concat(s.as_str()),
            AudioError::Symphonia(s) => String::from_str("Symphonia error: ").concat(s.as_str()),
            AudioError::InvalidAudioFile(s) => String::from_str("Invalid audio file: ").concat(
                s.as_str(),
            ),
            AudioError::Cache(s) => String::from_str("Cache error: ").concat(s.as_str()),
            AudioError::Processing(s) => String::from_str("Processing error: ").concat(s.as_str()),
        }
    }
}

} // verus!
