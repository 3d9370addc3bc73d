//! The failures that the scheduler reports.

use crate::decimal::{decimal_text, to_decimal};
use crate::message::ChannelMessage;
use std::sync::mpsc::{RecvError, SendError};
use vstd::prelude::*;
use vstd::string::{to_string_from_display_ensures, StringExecFns};

verus! {

/// A failure of the scheduling core.
#[derive(Debug)]
pub enum Error {
    /// A message could not be sent: the receiving end is gone.
    Send(SendError<ChannelMessage>),
    /// No message can arrive any more: every sending end is gone.
    Rec(RecvError),
    /// A stored number names no variant of the enum called by the text.
    Enum(String, i32),
    /// Any other failure, with its description.
    Other(String),
}

impl Error {
    /// The failure says that `value` names no variant of the enum `name`.
    pub open spec fn is_bad_code(self, name: Seq<char>, value: i32) -> bool {
        self matches Error::Enum(text, v) && text@ == name && v == value
    }

    /// The failure is described by `msg`.
    pub open spec fn is_other(self, msg: Seq<char>) -> bool {
        self matches Error::Other(text) && text@ == msg
    }

    /// `text` is the line that the log shows for this failure: a heading that
    /// tells its kind, and under it what the failure itself prints. For a
    /// number that names no variant the line names the number and the enum.
    pub open spec fn described_by(self, text: Seq<char>) -> bool {
        match self {
            Error::Send(e) => exists|cause: String|
                #[trigger] to_string_from_display_ensures(&e, cause) && text
                    == "MCSP Channel Send Error\n"@ + cause@,
            Error::Rec(e) => exists|cause: String|
                #[trigger] to_string_from_display_ensures(&e, cause) && text
                    == "MCSP Channel Recv Error\n"@ + cause@,
            Error::Enum(name, value) => text == "Attempt to construct "@ + decimal_text(
                value as int,
            ) + " failed with "@ + name@ + ", out of bounds"@,
            Error::Other(cause) => text == "Unknown Error\n"@ + cause@,
        }
    }

    /// Renders the failure for the log.
    pub fn to_text(&self) -> (text: String)
        ensures
            self.described_by(text@),
    {
        match self {
            Error::Send(e) => String::from_str("MCSP Channel Send Error\n").concat(
                e.to_string().as_str(),
            ),
            Error::Rec(e) => String::from_str("MCSP Channel Recv Error\n").concat(
                e.to_string().as_str(),
            ),
            Error::Enum(name, value) => String::from_str("Attempt to construct ").concat(
                to_decimal(*value).as_str(),
            ).concat(" failed with ").concat(name.as_str()).concat(", out of bounds"),
            Error::Other(cause) => String::from_str("Unknown Error\n").concat(cause.as_str()),
        }
    }

    /// A failure described by `msg`.
    pub fn other(msg: &str) -> (e: Error)
        ensures
            e.is_other(msg@),
    {
        Error::Other(msg.to_owned())
    }

    /// The failure to read `i` as a variant of the enum called `name`.
    pub fn _enum(name: &str, i: i32) -> (e: Error)
        ensures
            e.is_bad_code(name@, i),
    {
        Error::Enum(name.to_owned(), i)
    }
}

} // verus!
