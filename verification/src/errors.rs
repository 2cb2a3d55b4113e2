//! The stable error codes surfaced by every failing operation.

use vstd::prelude::*;

verus! {

/// Why an operation was rejected. Every failure aborts the enclosing
/// operation with no partial effect and surfaces one of these codes.
#[derive(Clone, Copy, Debug, PartialEq, Eq, Structural)]
pub enum ErrorCode {
    /// A checked counter increment would wrap.
    MathOverflow,
    /// A title, description, body or profile field exceeds its byte budget.
    ContentTooLong,
    /// The creator record is deactivated.
    CreatorNotActive,
    /// The caller is not the record's recorded authority.
    UnauthorizedAccess,
    /// The supplied creator record does not match the request.
    InvalidCreator,
    /// No content record exists for the request.
    ContentNotFound,
    /// The content record is deactivated.
    ContentNotActive,
    /// A fetch asked for an unreasonable page size.
    InvalidLimit,
    /// The comment list already holds its maximum number of entries.
    TooManyComments,
    /// An empty content body is not allowed.
    EmptyContent,
    /// An empty comment is not allowed.
    EmptyComment,
    /// The supplied content index is not the next unassigned one.
    InvalidContentIndex,
    /// The claimed address does not re-derive from the claimed keys and salt.
    BumpNotFound,
    /// An empty title is not allowed.
    EmptyTitle,
    /// A comment exceeds its byte budget.
    CommentTooLong,
    /// A fetch asked for an unknown content-type filter.
    InvalidFilter,
}

} // verus!
