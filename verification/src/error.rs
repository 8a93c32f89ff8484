//! The error kinds the store distinguishes.

use vstd::prelude::*;

verus! {

/// A failure of the store, distinguishable by kind and carrying a
/// human-readable message with the context of the failing step.
#[derive(Debug)]
pub enum StoreError {
    /// The host could not supply a per-application data directory.
    PathResolution(String),
    /// A filesystem read, write, directory-creation or permission-change
    /// failure.
    Io(String),
    /// A stored or supplied text is not valid JSON, or lacks a required
    /// field of the typed record.
    Parse(String),
}

/// A message carries a context prefix when its first characters are
/// exactly that prefix.
pub open spec fn has_context_prefix(m: Seq<char>, prefix: Seq<char>) -> bool {
    m.len() >= prefix.len() && m.subrange(0, prefix.len() as int) == prefix
}

/// A message built as a context prefix followed by a cause carries that
/// prefix.
pub proof fn lemma_concat_has_prefix(prefix: Seq<char>, rest: Seq<char>)
    ensures
        has_context_prefix(prefix + rest, prefix),
{
    assert((prefix + rest).subrange(0, prefix.len() as int) =~= prefix);
}

impl StoreError {
    /// The message carried by the error, whatever its kind.
    pub open spec fn spec_message(self) -> Seq<char> {
        match self {
            StoreError::PathResolution(m) => m@,
            StoreError::Io(m) => m@,
            StoreError::Parse(m) => m@,
        }
    }

    /// Returns the human-readable message of this error.
    pub fn message(&self) -> (m: String)
        ensures
            m@ == self.spec_message(),
    {
        match self {
            StoreError::PathResolution(m) => m.clone(),
            StoreError::Io(m) => m.clone(),
            StoreError::Parse(m) => m.clone(),
        }
    }

    /// Returns true exactly when the host failed to supply a data directory.
    pub fn is_path_resolution(&self) -> (b: bool)
        ensures
            b == (self is PathResolution),
    {
        matches!(self, StoreError::PathResolution(_))
    }

    /// Returns true exactly when a filesystem step failed.
    pub fn is_io(&self) -> (b: bool)
        ensures
            b == (self is Io),
    {
        matches!(self, StoreError::Io(_))
    }

    /// Returns true exactly when a text failed to parse as the record.
    pub fn is_parse(&self) -> (b: bool)
        ensures
            b == (self is Parse),
    {
        matches!(self, StoreError::Parse(_))
    }
}

} // verus!
