//! What a step of the loop ended with, and the kinds of failure.

use vstd::prelude::*;

verus! {

/// The kinds of failure that the tool knows.
#[derive(Clone, Copy, Debug, PartialEq, Eq, Structural)]
pub enum ErrorKind {
    /// The input could not be watched.
    Setup,
    /// The input could not be read, or is not UTF-8 text.
    Read,
    /// The output could not be written.
    Write,
    /// The watcher failed to deliver a notification.
    WatchChannel,
}

impl ErrorKind {
    /// Whether a failure of this kind ends the process.
    pub open spec fn fatal(self) -> bool {
        self == ErrorKind::Setup
    }

    /// Whether a failure of this kind ends the process: only a failed setup
    /// does, every other kind is survived.
    pub fn is_fatal(self) -> (fatal: bool)
        ensures
            fatal == self.fatal(),
    {
        match self {
            ErrorKind::Setup => true,
            ErrorKind::Read => false,
            ErrorKind::Write => false,
            ErrorKind::WatchChannel => false,
        }
    }
}

/// What ended in a step: a render cycle, or something that failed outside one.
#[derive(Debug, PartialEq, Eq)]
pub enum Outcome {
    /// The output was written; `bytes` is its length in bytes.
    Success { bytes: usize },
    /// Something failed; `message` is the text of the underlying error.
    Failure { kind: ErrorKind, message: String },
}

/// An outcome with its message as a text.
pub enum OutcomeView {
    Success { bytes: usize },
    Failure { kind: ErrorKind, message: Seq<char> },
}

impl View for Outcome {
    type V = OutcomeView;

    open spec fn view(&self) -> OutcomeView {
        match *self {
            Outcome::Success { bytes } => OutcomeView::Success { bytes },
            Outcome::Failure { kind, message } => OutcomeView::Failure { kind, message: message@ },
        }
    }
}

impl Outcome {
    /// Whether the output was written.
    pub fn is_success(&self) -> (success: bool)
        ensures
            success == (self@ is Success),
    {
        match self {
            Outcome::Success { .. } => true,
            Outcome::Failure { .. } => false,
        }
    }
}

} // verus!
