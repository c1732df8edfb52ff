use vstd::prelude::*;
use vstd::string::StringExecFns;

verus! {

/// Why voice-activity detection failed. Each variant carries the details as text.
#[derive(Debug)]
pub enum VadError {
    /// A frame could not be scored.
    SileroError(String),
    /// The detector could not be set up as configured.
    VadError(String),
    /// The scoring backend failed.
    OnnxError(String),
}

impl VadError {
    /// The text that `to_string` gives.
    pub open spec fn text(self) -> Seq<char> {
        match self {
            VadError::SileroError(details) => "Silero error: "@ + details@,
            VadError::VadError(details) => "Vad error: "@ + details@,
            VadError::OnnxError(details) => "Onnx error: "@ + details@,
        }
    }

    /// The error as one line of text.
    pub fn to_string(&self) -> (line: String)
        ensures
            line@ == self.text(),
    {
        match self {
            VadError::SileroError(details) => String::from_str("Silero error: ").concat(
                details.as_str(),
            ),
            VadError::VadError(details) => String::from_str("Vad error: ").concat(
                details.as_str(),
            ),
            VadError::OnnxError(details) => String::from_str("Onnx error: ").concat(
                details.as_str(),
            ),
        }
    }
}

/// The error of the WAVE decoder `hound`. Nothing is known of what it holds.
#[verifier::external_type_specification]
#[verifier::external_body]
pub struct ExHoundError(hound::Error);

/// Why a request to the detection service failed.
#[derive(Debug)]
pub enum VadServiceError {
    /// Detection itself failed.
    VadError(VadError),
    /// The audio is no WAVE file that the decoder accepts.
    WavReaderError(hound::Error),
    /// The audio is of a kind or a sample rate that the service does not take.
    InvalidAudio(String),
    /// Anything else.
    Internal(String),
}

/// Formats an error of `hound` with the `Display` that `hound` gives it.
/// Nothing is claimed of the text.
#[verifier::external_body]
fn describe_hound_error(error: &hound::Error) -> (text: String) {
    format!("{}", error)
}

impl VadServiceError {
    /// What the error's line of text begins with.
    pub open spec fn heading(self) -> Seq<char> {
        match self {
            VadServiceError::VadError(_) => "VAD error: "@,
            VadServiceError::WavReaderError(_) => "Failed to parse audio: "@,
            VadServiceError::InvalidAudio(_) => "Invalid audio: "@,
            VadServiceError::Internal(_) => "Error: "@,
        }
    }

    /// What follows the heading, where the error itself holds it. What the
    /// decoder has refused is described in the decoder's own words, which
    /// are not known here.
    pub open spec fn details(self) -> Option<Seq<char>> {
        match self {
            VadServiceError::VadError(error) => Some(error.text()),
            VadServiceError::WavReaderError(_) => None,
            VadServiceError::InvalidAudio(details) => Some(details@),
            VadServiceError::Internal(details) => Some(details@),
        }
    }

    /// Whether `line` is a line of text for this error: the heading, and
    /// after it the details where they are known.
    pub open spec fn is_worded_as(self, line: Seq<char>) -> bool {
        &&& self.heading().is_prefix_of(line)
        &&& self.details() matches Some(details) ==> line == self.heading() + details
    }

    /// The error as one line of text.
    pub fn to_string(&self) -> (line: String)
        ensures
            self.is_worded_as(line@),
    {
        match self {
            VadServiceError::VadError(error) => String::from_str("VAD error: ").concat(
                error.to_string().as_str(),
            ),
            VadServiceError::WavReaderError(error) => String::from_str(
                "Failed to parse audio: ",
            ).concat(describe_hound_error(error).as_str()),
            VadServiceError::InvalidAudio(details) => String::from_str("Invalid audio: ").concat(
                details.as_str(),
            ),
            VadServiceError::Internal(details) => String::from_str("Error: ").concat(
                details.as_str(),
            ),
        }
    }
}

} // verus!
