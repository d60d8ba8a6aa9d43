//! The status word of a reply.

use vstd::prelude::*;

verus! {

/// Whether a request was served.
#[derive(Clone, Copy, Debug, PartialEq, Eq, Structural)]
pub enum ResponseStatus {
    Success,
    Error,
}

impl ResponseStatus {
    /// The word that stands for a status.
    pub open spec fn word(self) -> Seq<char> {
        match self {
            ResponseStatus::Success => "success"@,
            ResponseStatus::Error => "error"@,
        }
    }

    /// The status as the lower-case word that replies carry.
    pub fn as_word(self) -> (word: String)
        ensures
            word@ == self.word(),
    {
        match self {
            ResponseStatus::Success => "success".to_owned(),
            ResponseStatus::Error => "error".to_owned(),
        }
    }
}

} // verus!
