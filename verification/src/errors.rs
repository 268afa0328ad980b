//! Error taxonomy of the update protocol.
//!
//! A failed update attempt surfaces exactly one of these kinds, and the
//! underlying cause is carried along verbatim so that callers can still
//! inspect it programmatically.

use vstd::prelude::*;

verus! {

/// Why the running build cannot self-update at all. Each cause is distinct,
/// so an operator can tell a build that was never meant to update from a
/// broken platform detection.
#[derive(Clone, Copy, Debug, PartialEq, Eq, Structural)]
pub enum ConfigIssue {
    /// No build commit was baked into this binary.
    MissingCommit,
    /// No release channel was baked into this binary.
    MissingQuality,
    /// A release channel was baked in, but it is not a known one.
    UnknownQuality,
    /// The operating system or architecture could not be recognised.
    UnknownPlatform,
}

/// The error of an update attempt.
#[derive(Debug)]
pub enum UpdateError {
    /// The build's identity cannot be resolved; fatal and not retryable.
    NotConfigured(ConfigIssue),
    /// A download or service failure, surfaced unchanged from the transport
    /// layer; the caller may retry.
    Transport(String),
    /// The downloaded content is not usable: wrong archive shape, or the
    /// staged binary failed its self-check. A retry must re-download.
    CorruptDownload(String),
    /// A filesystem operation failed; `context` names the step and `cause`
    /// keeps the operating system's own message.
    Filesystem { context: String, cause: String },
}

/// The mathematical value of an [`UpdateError`]: the same shape over
/// character sequences.
pub enum UpdateErrorV {
    NotConfigured(ConfigIssue),
    Transport(Seq<char>),
    CorruptDownload(Seq<char>),
    Filesystem { context: Seq<char>, cause: Seq<char> },
}

impl View for UpdateError {
    type V = UpdateErrorV;

    open spec fn view(&self) -> UpdateErrorV {
        match self {
            UpdateError::NotConfigured(i) => UpdateErrorV::NotConfigured(*i),
            UpdateError::Transport(m) => UpdateErrorV::Transport(m@),
            UpdateError::CorruptDownload(m) => UpdateErrorV::CorruptDownload(m@),
            UpdateError::Filesystem { context, cause } => UpdateErrorV::Filesystem {
                context: context@,
                cause: cause@,
            },
        }
    }
}

} // verus!
