//! What can go wrong between a request and its result.

use crate::channel::TransportError;
use crate::frame::Command;
use crate::frame::ErrorCode;
use crate::frame::FrameError;
use crate::text::decimal;
use crate::text::hex4;
use crate::text::push_decimal;
use crate::text::push_hex4;
use vstd::prelude::*;
use vstd::string::StringExecFns;

verus! {

/// The failure of a call into the instrument. Every failure ends the call at
/// once: nothing is retried.
#[derive(Debug, Clone, PartialEq, Eq)]
pub enum ProtocolError {
    /// The transport failed; its error is passed on as it came.
    Transport(TransportError),
    /// The channel delivered byte after byte, as many as the receiver is
    /// willing to take for one frame, and no frame among them.
    NoFrame,
    /// The bytes received are not a frame.
    Frame(FrameError),
    /// The device answered the command with an error frame.
    Device {
        /// The command that was asked for.
        command: Command,
        /// The error that the device reported.
        code: ErrorCode,
    },
    /// The device answered another command than the one asked for.
    UnexpectedCommand {
        /// The command that was asked for.
        expected: Command,
        /// The command that the answer carries.
        received: Command,
    },
    /// A value was to be read past the end of the bytes at hand.
    OutOfBounds,
    /// A payload that should be text is not UTF-8.
    InvalidUtf8,
    /// The program header in flash announces another block than the
    /// calibration data.
    InvalidMemoryType {
        /// The type tag of calibration data.
        wanted: u16,
        /// The type tag found.
        found: u16,
    },
}

impl ProtocolError {
    /// The error, in words.
    pub open spec fn spec_message(self) -> Seq<char> {
        match self {
            ProtocolError::Transport(error) => error@,
            ProtocolError::NoFrame => "No frame in the bytes received"@,
            ProtocolError::Frame(error) => error.spec_message(),
            ProtocolError::Device { command, code } => "Error executing command "@
                + command.spec_description() + ": "@ + code.spec_description() + " ("@ + hex4(
                code.spec_code(),
            ) + ")"@,
            ProtocolError::UnexpectedCommand { expected, received } =>
                "Invalid response, expected: "@ + expected.spec_name() + ", received: "@
                    + received.spec_name(),
            ProtocolError::OutOfBounds => "index out of bounds"@,
            ProtocolError::InvalidUtf8 => "invalid utf-8 sequence"@,
            ProtocolError::InvalidMemoryType { wanted, found } =>
                "Invalid flash memory type, expected: "@ + decimal(wanted as nat) + ", got: "@
                    + decimal(found as nat),
        }
    }

    /// The error, in words.
    pub fn to_string(&self) -> (text: String)
        ensures
            text@ == self.spec_message(),
    {
        match self {
            ProtocolError::Transport(error) => error.to_string(),
            ProtocolError::NoFrame => String::from_str("No frame in the bytes received"),
            ProtocolError::Frame(error) => error.to_string(),
            ProtocolError::Device { command, code } => {
                let mut text = String::from_str("Error executing command ");
                text.append(command.description());
                text.append(": ");
                text.append(code.description());
                text.append(" (");
                push_hex4(&mut text, code.code());
                text.append(")");
                text
            },
            ProtocolError::UnexpectedCommand { expected, received } => {
                let mut text = String::from_str("Invalid response, expected: ");
                text.append(expected.name());
                text.append(", received: ");
                text.append(received.name());
                text
            },
            ProtocolError::OutOfBounds => String::from_str("index out of bounds"),
            ProtocolError::InvalidUtf8 => String::from_str("invalid utf-8 sequence"),
            ProtocolError::InvalidMemoryType { wanted, found } => {
                let mut text = String::from_str("Invalid flash memory type, expected: ");
                push_decimal(&mut text, *wanted as u32);
                text.append(", got: ");
                push_decimal(&mut text, *found as u32);
                text
            },
        }
    }
}

} // verus!
