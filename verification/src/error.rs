//! What can end a conversion early.

use vstd::prelude::*;
use vstd::string::StringExecFns;

verus! {

/// The part of the output that a failed write was meant for.
#[derive(Clone, Copy, Debug, PartialEq, Eq, Structural)]
pub enum WriteTarget {
    /// The output file itself could not be created.
    Output,
    /// A frame could not be encoded or appended.
    Frame,
}

/// Why a conversion stopped. Every failure is final for its run.
#[derive(Debug)]
pub enum ConversionError {
    /// The scratch directory could not be created.
    TemporaryStorage { cause: String },
    /// The extraction tool could not be started (`launch` says why) or exited
    /// with a status other than zero (`launch` is `None`).
    ExternalTool { tool: String, launch: Option<String> },
    /// The scratch directory could not be searched for frames.
    FrameDiscovery { cause: String },
    /// The extraction tool produced no frame.
    EmptyResult,
    /// A frame file could not be read or does not hold a usable image.
    ImageDecode { cause: String },
    /// The animation could not be started.
    EncoderInit { cause: String },
    /// The output could not be written.
    Write { target: WriteTarget, cause: String },
}

impl ConversionError {
    /// The message shown to the user for this error.
    pub open spec fn message_text(self) -> Seq<char> {
        match self {
            ConversionError::TemporaryStorage { cause } => "Failed to create temp dir: "@ + cause@,
            ConversionError::ExternalTool { tool, launch: Some(cause) } => "Failed to execute "@
                + tool@ + ": "@ + cause@,
            ConversionError::ExternalTool { tool, launch: None } => tool@ + " returned an error"@,
            ConversionError::FrameDiscovery { cause } => "glob error: "@ + cause@,
            ConversionError::EmptyResult => "No frames found"@,
            ConversionError::ImageDecode { cause } => "Failed to open frame: "@ + cause@,
            ConversionError::EncoderInit { cause } => "GIF encoder failed: "@ + cause@,
            ConversionError::Write { target: WriteTarget::Output, cause } =>
                "Failed to create output: "@ + cause@,
            ConversionError::Write { target: WriteTarget::Frame, cause } =>
                "Failed to write frame: "@ + cause@,
        }
    }

    /// The status line that reports this error.
    pub open spec fn status_text(self) -> Seq<char> {
        "Error: "@ + self.message_text()
    }

    /// Renders the message shown to the user for this error.
    pub fn message(&self) -> (text: String)
        ensures
            text@ == self.message_text(),
    {
        match self {
            ConversionError::TemporaryStorage { cause } => prefixed(
                "Failed to create temp dir: ",
                cause.as_str(),
            ),
            ConversionError::ExternalTool { tool, launch: Some(cause) } => {
                let mut text = prefixed("Failed to execute ", tool.as_str());
                text.append(": ");
                text.append(cause.as_str());
                assert(text@ == "Failed to execute "@ + tool@ + ": "@ + cause@);
                text
            },
            ConversionError::ExternalTool { tool, launch: None } => prefixed(
                tool.as_str(),
                " returned an error",
            ),
            ConversionError::FrameDiscovery { cause } => prefixed("glob error: ", cause.as_str()),
            ConversionError::EmptyResult => String::from_str("No frames found"),
            ConversionError::ImageDecode { cause } => prefixed(
                "Failed to open frame: ",
                cause.as_str(),
            ),
            ConversionError::EncoderInit { cause } => prefixed(
                "GIF encoder failed: ",
                cause.as_str(),
            ),
            ConversionError::Write { target: WriteTarget::Output, cause } => prefixed(
                "Failed to create output: ",
                cause.as_str(),
            ),
            ConversionError::Write { target: WriteTarget::Frame, cause } => prefixed(
                "Failed to write frame: ",
                cause.as_str(),
            ),
        }
    }

    /// Renders the status line that reports this error.
    pub fn status(&self) -> (text: String)
        ensures
            text@ == self.status_text(),
    {
        let message = self.message();
        prefixed("Error: ", message.as_str())
    }
}

/// The text `head` followed by the text `tail`.
pub fn prefixed(head: &str, tail: &str) -> (text: String)
    ensures
        text@ == head@ + tail@,
{
    let mut text = String::from_str(head);
    text.append(tail);
    text
}

} // verus!
