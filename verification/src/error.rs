use vstd::prelude::*;

verus! {

/// The error taxonomy the service reports at its request boundary.
///
/// `ResourceExhausted` and `NotFound` are terminal for the call that sees
/// them; `Aborted` carries the diagnostic text a failed task stored;
/// `Internal` carries a collaborator's error text; `Unimplemented` marks a
/// path the service deliberately does not provide, distinct from every real
/// fault so a caller can tell "retry later" from "never available".
#[derive(Debug, Clone, PartialEq, Eq)]
pub enum ServiceError {
    /// The request payload did not decode into a known action.
    InvalidArgument,
    /// The concurrency guard is at its bound; the caller must retry later.
    ResourceExhausted,
    /// The task resolved with a failure; the text is its stored reason.
    Aborted(String),
    /// A lookup (schema or shuffle output) found nothing under the id.
    NotFound,
    /// The requested path exists in the protocol but is not provided.
    Unimplemented,
    /// An external collaborator reported an error; the text is its message.
    Internal(String),
}

} // verus!
