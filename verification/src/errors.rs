use vstd::prelude::*;

verus! {

/// The recoverable failures that the core reports to its callers.
///
/// Every variant is an expected condition surfaced as a structured
/// result, never a panic.
#[derive(Clone, Copy, Debug, PartialEq, Eq, Structural)]
pub enum ForumError {
    /// `register` found an existing account with the requested username.
    DuplicateUsername,
    /// A lookup by username or by post identifier found nothing.
    NotFound,
    /// The stored credential does not match the presented password.
    InvalidCredential,
    /// A post or comment names an author that does not exist.
    UnknownAuthor,
    /// A comment names a post that does not exist.
    UnknownPost,
    /// A comment names a parent comment that does not belong to its post.
    InvalidParent,
    /// An action that needs a signed-in user was attempted anonymously.
    Unauthenticated,
    /// The backing store could not be reached. The in-memory core never
    /// produces this; the storage layer around it reports it so callers
    /// can tell connectivity faults from validation failures.
    StorageUnavailable,
}

} // verus!
