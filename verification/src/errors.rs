//! The ways in which an archive run fails.

use vstd::prelude::*;
use vstd::string::*;

verus! {

/// Why an archive run ended without success.
#[derive(Debug, Clone, Copy, PartialEq, Eq, Structural)]
pub enum Errors {
    /// The address names no post.
    InputFormat,
    /// A request could not be sent, or its answer could not be received.
    Transport,
    /// The service opened no session for the identifier and secret.
    Authentication,
    /// The handle could not be resolved to an actor.
    Resolution,
    /// An answer did not have the expected shape.
    Deserialization,
    /// A directory or file could not be created or written.
    Filesystem,
    /// The directory of the post exists already.
    AlreadyArchived,
    /// The post embeds a video without a reference to its content.
    MediaReferenceMissing,
    /// The driver reported an outcome that the pending action cannot have.
    UnexpectedEvent,
}

impl Errors {
    /// The text that describes the failure.
    pub open spec fn spec_message(self) -> Seq<char> {
        match self {
            Errors::InputFormat => "Could not find a post in the address"@,
            Errors::Transport => "Unable to send request"@,
            Errors::Authentication => "Unable to open a session"@,
            Errors::Resolution => "Unable to resolve the handle"@,
            Errors::Deserialization => "Could not deserialize bytes"@,
            Errors::Filesystem => "Unable to create file due to error"@,
            Errors::AlreadyArchived => "The post is archived already"@,
            Errors::MediaReferenceMissing => "The video has no media reference"@,
            Errors::UnexpectedEvent => "Unexpected outcome of an action"@,
        }
    }

    /// The status with which a process ends on this failure: 100 where the
    /// address names no post, 1 for every other failure.
    pub open spec fn spec_exit_status(self) -> u8 {
        if self == Errors::InputFormat {
            100
        } else {
            1
        }
    }

    /// Describes the failure in words.
    pub fn message(&self) -> (text: String)
        ensures
            text@ == self.spec_message(),
    {
        let text: &str = match self {
            Errors::InputFormat => "Could not find a post in the address",
            Errors::Transport => "Unable to send request",
            Errors::Authentication => "Unable to open a session",
            Errors::Resolution => "Unable to resolve the handle",
            Errors::Deserialization => "Could not deserialize bytes",
            Errors::Filesystem => "Unable to create file due to error",
            Errors::AlreadyArchived => "The post is archived already",
            Errors::MediaReferenceMissing => "The video has no media reference",
            Errors::UnexpectedEvent => "Unexpected outcome of an action",
        };
        String::from_str(text)
    }

    /// The status with which the process should end on this failure. An
    /// address without a post has a status of its own.
    pub fn exit_status(&self) -> (status: u8)
        ensures
            status == self.spec_exit_status(),
            (status == 100) == (*self == Errors::InputFormat),
            status != 0,
    {
        match self {
            Errors::InputFormat => 100,
            _ => 1,
        }
    }
}

} // verus!
