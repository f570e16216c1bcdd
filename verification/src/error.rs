//! What can go wrong, and the message that reports it.

use vstd::prelude::*;
use vstd::string::StringExecFns;

verus! {

/// A container format that an image can be encoded to.
#[derive(Clone, Copy, Debug, PartialEq, Eq, Structural)]
pub enum OutputFormat {
    Png,
    Jpeg,
    WebP,
}

impl OutputFormat {
    /// The name of the format as messages spell it.
    pub open spec fn label(self) -> Seq<char> {
        match self {
            OutputFormat::Png => "PNG"@,
            OutputFormat::Jpeg => "JPEG"@,
            OutputFormat::WebP => "WebP"@,
        }
    }

    fn label_text(self) -> (s: &'static str)
        ensures
            s@ == self.label(),
    {
        match self {
            OutputFormat::Png => "PNG",
            OutputFormat::Jpeg => "JPEG",
            OutputFormat::WebP => "WebP",
        }
    }
}

/// The failure half of every response.
#[derive(Debug)]
pub enum ProcessorError {
    /// An operation that needs an image was called on an empty session.
    NoImageLoaded,
    /// The bytes handed to the session are not an image it can hold; with the reason.
    Decode(String),
    /// The image could not be written in the requested format; with the reason.
    Encode(OutputFormat, String),
    /// The geometry asked for is empty, out of bounds or too large.
    InvalidParameters,
}

impl ProcessorError {
    /// The human-readable message of this error.
    pub open spec fn text(self) -> Seq<char> {
        match self {
            ProcessorError::NoImageLoaded => "No image loaded"@,
            ProcessorError::Decode(reason) => "Failed to load image: "@ + reason@,
            ProcessorError::Encode(format, reason) => "Failed to encode "@ + format.label() + ": "@
                + reason@,
            ProcessorError::InvalidParameters => "Invalid parameters"@,
        }
    }

    /// The human-readable message of this error.
    pub fn message(&self) -> (s: String)
        ensures
            s@ == self.text(),
    {
        match self {
            ProcessorError::NoImageLoaded => String::from_str("No image loaded"),
            ProcessorError::Decode(reason) => {
                let mut s: String = String::from_str("Failed to load image: ");
                s.append(reason.as_str());
                s
            },
            ProcessorError::Encode(format, reason) => {
                let mut s: String = String::from_str("Failed to encode ");
                s.append(format.label_text());
                s.append(": ");
                s.append(reason.as_str());
                s
            },
            ProcessorError::InvalidParameters => String::from_str("Invalid parameters"),
        }
    }
}

} // verus!
