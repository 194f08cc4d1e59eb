//! The ways in which reading a chord can fail.

use vstd::prelude::*;

verus! {

/// Why a text was not read as a chord.
#[derive(Debug, Clone, Copy, PartialEq, Eq, Structural)]
pub enum ParseError {
    /// The text is not a chord token: the tonic or the quality marker is
    /// malformed, the accidental does not go with the letter, or something
    /// is left over.
    Syntax,
    /// The tonic was accepted as a token but spells no known note.
    UnknownTonic,
}

impl ParseError {
    /// The wording of this error.
    pub open spec fn wording(self) -> Seq<char> {
        match self {
            ParseError::Syntax => "not a chord"@,
            ParseError::UnknownTonic => "unknown tonic"@,
        }
    }

    /// A short description of this error, for showing to a user.
    pub fn message(&self) -> (s: String)
        ensures
            s@ == self.wording(),
    {
        match self {
            ParseError::Syntax => String::from_str("not a chord"),
            ParseError::UnknownTonic => String::from_str("unknown tonic"),
        }
    }
}

} // verus!
