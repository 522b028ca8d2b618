//! Failures: what the store reports, and the few kinds that callers see.

use crate::text::text_eq;
use vstd::prelude::*;
use vstd::string::*;

verus! {

/// A failure reported by the store, reduced to what decisions depend on.
#[derive(Clone, Debug)]
pub enum StoreError {
    /// A statement that must return a row returned none.
    RowNotFound,
    /// The engine refused the statement; `code` is its SQLSTATE, if it gave
    /// one.
    Database { code: Option<String> },
    /// Connection, timeout, decoding and everything else.
    Other,
}

/// The kinds of failure that a caller can tell apart.
#[derive(Clone, Copy, Debug, PartialEq, Eq, Structural)]
pub enum ErrorKind {
    /// A filter or patch that is malformed or empty. Detected before the
    /// store is asked anything.
    InvalidInput,
    /// A change matched no row, or a new item refers to a good that does not
    /// exist.
    NotFound,
    /// The store refused an insert because the key is taken.
    Conflict,
    /// A good cannot go while inventory refers to it.
    ReferentialBlock,
    /// Anything else that went wrong in the store.
    StoreFailure,
}

/// The SQLSTATE of a unique-key violation.
pub open spec fn unique_violation() -> Seq<char> {
    "23505"@
}

/// The SQLSTATE of a foreign-key violation.
pub open spec fn foreign_key_violation() -> Seq<char> {
    "23503"@
}

/// The SQLSTATE of a check-constraint violation.
pub open spec fn check_violation() -> Seq<char> {
    "23514"@
}

impl StoreError {
    /// The SQLSTATE that the engine gave, if any.
    pub open spec fn code(self) -> Option<Seq<char>> {
        match self {
            StoreError::Database { code: Some(c) } => Some(c@),
            _ => None,
        }
    }

    /// The kind under which a caller sees this failure: a missing row is
    /// `NotFound`, the two constraint violations are `Conflict` and
    /// `ReferentialBlock`, and everything else is `StoreFailure`.
    pub open spec fn kind(self) -> ErrorKind {
        match self {
            StoreError::RowNotFound => ErrorKind::NotFound,
            StoreError::Database { code: Some(c) } => if c@ == unique_violation() {
                ErrorKind::Conflict
            } else if c@ == foreign_key_violation() {
                ErrorKind::ReferentialBlock
            } else {
                ErrorKind::StoreFailure
            },
            _ => ErrorKind::StoreFailure,
        }
    }

    /// Classifies a store failure.
    pub fn classify(&self) -> (k: ErrorKind)
        ensures
            k == self.kind(),
    {
        match self {
            StoreError::RowNotFound => ErrorKind::NotFound,
            StoreError::Database { code: Some(c) } => {
                if text_eq(c.as_str(), "23505") {
                    ErrorKind::Conflict
                } else if text_eq(c.as_str(), "23503") {
                    ErrorKind::ReferentialBlock
                } else {
                    ErrorKind::StoreFailure
                }
            },
            _ => ErrorKind::StoreFailure,
        }
    }

    /// Whether the store refused a statement because a unique key is taken.
    pub fn is_unique_violation(&self) -> (r: bool)
        ensures
            r == (self.kind() == ErrorKind::Conflict),
    {
        match self.classify() {
            ErrorKind::Conflict => true,
            _ => false,
        }
    }
}

/// SQLSTATE codes are told apart: no failure is of two kinds.
pub proof fn lemma_codes_differ()
    ensures
        unique_violation() != foreign_key_violation(),
        unique_violation() != check_violation(),
        foreign_key_violation() != check_violation(),
{
    reveal_strlit("23505");
    reveal_strlit("23503");
    reveal_strlit("23514");
    assert(unique_violation()[4] != foreign_key_violation()[4]);
    assert(unique_violation()[3] != check_violation()[3]);
    assert(foreign_key_violation()[3] != check_violation()[3]);
}

} // verus!
