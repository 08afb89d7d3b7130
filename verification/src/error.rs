//! The failures that the engine reports.

use vstd::prelude::*;
use vstd::string::StringExecFns;

verus! {

/// Every way in which an operation of the engine can fail.
#[derive(Clone, Debug, PartialEq, Eq)]
pub enum MediaError {
    /// A width or height of zero was given to the geometry resolver.
    InvalidDimensions,
    /// A codec or format name that the command builder has no entry for.
    UnsupportedFormat,
    /// The external tool could not be located or started.
    ToolNotFound,
    /// The external tool ran and did not report success. `exit_code` is `None`
    /// where the tool was ended by a signal.
    ToolExecutionFailed { exit_code: Option<i32>, stderr: String },
    /// A pipe or stream of the external tool failed.
    IOFailure,
    /// The source bytes are not an image.
    DecodeError,
    /// The image could not be written in the target format, or is too large
    /// for the machine to hold.
    EncodeError,
    /// The probe output is not a structured document.
    MalformedProbeOutput,
    /// No job has the identifier asked for.
    JobNotFound,
}

/// A failure as plain values.
pub enum ErrorModel {
    InvalidDimensions,
    UnsupportedFormat,
    ToolNotFound,
    ToolExecutionFailed { exit_code: Option<i32>, stderr: Seq<char> },
    IOFailure,
    DecodeError,
    EncodeError,
    MalformedProbeOutput,
    JobNotFound,
}

impl View for MediaError {
    type V = ErrorModel;

    open spec fn view(&self) -> ErrorModel {
        match *self {
            MediaError::InvalidDimensions => ErrorModel::InvalidDimensions,
            MediaError::UnsupportedFormat => ErrorModel::UnsupportedFormat,
            MediaError::ToolNotFound => ErrorModel::ToolNotFound,
            MediaError::ToolExecutionFailed { exit_code, stderr } => ErrorModel::ToolExecutionFailed {
                exit_code,
                stderr: stderr@,
            },
            MediaError::IOFailure => ErrorModel::IOFailure,
            MediaError::DecodeError => ErrorModel::DecodeError,
            MediaError::EncodeError => ErrorModel::EncodeError,
            MediaError::MalformedProbeOutput => ErrorModel::MalformedProbeOutput,
            MediaError::JobNotFound => ErrorModel::JobNotFound,
        }
    }
}

/// The message that stands for a failure. A failed tool run is reported with
/// everything that the tool wrote to its standard error.
pub open spec fn message_of(error: ErrorModel) -> Seq<char> {
    match error {
        ErrorModel::InvalidDimensions => "invalid dimensions: width and height must be positive"@,
        ErrorModel::UnsupportedFormat => "unsupported format or codec"@,
        ErrorModel::ToolNotFound => "external tool not found"@,
        ErrorModel::ToolExecutionFailed { exit_code, stderr } => "external tool failed: "@ + stderr,
        ErrorModel::IOFailure => "i/o failure while running the external tool"@,
        ErrorModel::DecodeError => "source is not a readable image"@,
        ErrorModel::EncodeError => "image could not be written in the target format"@,
        ErrorModel::MalformedProbeOutput => "malformed probe output"@,
        ErrorModel::JobNotFound => "job not found"@,
    }
}

impl MediaError {
    /// The message that stands for the failure.
    pub fn message(&self) -> (text: String)
        ensures
            text@ == message_of(self@),
    {
        match self {
            MediaError::InvalidDimensions => {
                "invalid dimensions: width and height must be positive".to_owned()
            },
            MediaError::UnsupportedFormat => "unsupported format or codec".to_owned(),
            MediaError::ToolNotFound => "external tool not found".to_owned(),
            MediaError::ToolExecutionFailed { exit_code, stderr } => {
                let mut text = "external tool failed: ".to_owned();
                text.append(stderr.as_str());
                text
            },
            MediaError::IOFailure => "i/o failure while running the external tool".to_owned(),
            MediaError::DecodeError => "source is not a readable image".to_owned(),
            MediaError::EncodeError => "image could not be written in the target format".to_owned(),
            MediaError::MalformedProbeOutput => "malformed probe output".to_owned(),
            MediaError::JobNotFound => "job not found".to_owned(),
        }
    }

    /// A copy of the failure.
    pub fn duplicate(&self) -> (copy: MediaError)
        ensures
            copy@ == self@,
    {
        match self {
            MediaError::InvalidDimensions => MediaError::InvalidDimensions,
            MediaError::UnsupportedFormat => MediaError::UnsupportedFormat,
            MediaError::ToolNotFound => MediaError::ToolNotFound,
            MediaError::ToolExecutionFailed { exit_code, stderr } => MediaError::ToolExecutionFailed {
                exit_code: *exit_code,
                stderr: stderr.clone(),
            },
            MediaError::IOFailure => MediaError::IOFailure,
            MediaError::DecodeError => MediaError::DecodeError,
            MediaError::EncodeError => MediaError::EncodeError,
            MediaError::MalformedProbeOutput => MediaError::MalformedProbeOutput,
            MediaError::JobNotFound => MediaError::JobNotFound,
        }
    }
}

} // verus!
