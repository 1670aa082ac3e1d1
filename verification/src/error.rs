//! The ways a call on the façade can fail.

use vstd::prelude::*;

verus! {

/// A failure of one façade call. Nothing is retried and nothing partial is
/// returned; the engine's own words travel in the variant.
#[derive(Debug, Clone, PartialEq, Eq)]
pub enum Error {
    /// The path has no text form that the engine could take.
    InvalidPath,
    /// The engine could not open the store: missing file, wrong format or
    /// version, corrupt content.
    OpenFailure(String),
    /// The engine rejected the query string or its predicate.
    QueryFailure(String),
    /// The engine failed while copying matched records out.
    MaterializeFailure(String),
}

impl Error {
    /// What `message` returns.
    pub open spec fn spec_message(&self) -> Seq<char> {
        match self {
            Error::InvalidPath => "Invalid path"@,
            Error::OpenFailure(text) => text@,
            Error::QueryFailure(text) => text@,
            Error::MaterializeFailure(text) => text@,
        }
    }

    /// True for the two failures that leave no store behind.
    pub open spec fn spec_is_open_failure(&self) -> bool {
        self is InvalidPath || self is OpenFailure
    }

    /// A line for a person to read: the engine's message where there is one.
    pub fn message(&self) -> (text: String)
        ensures
            text@ == self.spec_message(),
    {
        match self {
            Error::InvalidPath => "Invalid path".to_owned(),
            Error::OpenFailure(text) => text.clone(),
            Error::QueryFailure(text) => text.clone(),
            Error::MaterializeFailure(text) => text.clone(),
        }
    }

    /// Whether opening a store failed, for whichever reason.
    pub fn is_open_failure(&self) -> (yes: bool)
        ensures
            yes == self.spec_is_open_failure(),
    {
        match self {
            Error::InvalidPath => true,
            Error::OpenFailure(_) => true,
            _ => false,
        }
    }
}

} // verus!
