//! The error of this library.

use vstd::prelude::*;
use vstd::string::*;

verus! {

/// The one way an operation of this library can fail.
#[derive(Debug, Clone, Copy, PartialEq, Eq, Structural)]
pub enum TexError {
    /// A child was offered to a container whose rank threshold it does not
    /// exceed.
    RankError,
}

impl TexError {
    /// The text that describes the error.
    pub open spec fn description(self) -> Seq<char> {
        match self {
            TexError::RankError => "Rank Error"@,
        }
    }

    /// The error in words.
    pub fn message(&self) -> (s: String)
        ensures
            s@ == self.description(),
    {
        match self {
            TexError::RankError => String::from_str("Rank Error"),
        }
    }
}

} // verus!
