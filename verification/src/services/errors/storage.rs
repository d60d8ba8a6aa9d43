//! Why the store refuses an operation.

use vstd::prelude::*;
use vstd::string::*;

verus! {

/// A failure of the store. Engines pass it on as it is.
#[derive(Debug)]
pub enum StoreError {
    /// A row was asked for and none was there.
    RowNotFound,
    /// A row with the same natural key is already stored.
    UniqueViolation,
    /// A column that must hold a value was given none.
    NullViolation,
    /// The store has no key left to give.
    Exhausted,
    /// Any other failure, in the store's own words.
    Other(String),
}

impl StoreError {
    /// The text that describes a failure.
    pub open spec fn description(self) -> Seq<char> {
        match self {
            StoreError::RowNotFound => "RowNotFound"@,
            StoreError::UniqueViolation => "UniqueViolation"@,
            StoreError::NullViolation => "NullViolation"@,
            StoreError::Exhausted => "Exhausted"@,
            StoreError::Other(text) => text@,
        }
    }

    /// Describes a failure for a message.
    pub fn describe(&self) -> (text: String)
        ensures
            text@ == self.description(),
    {
        match self {
            StoreError::RowNotFound => "RowNotFound".to_owned(),
            StoreError::UniqueViolation => "UniqueViolation".to_owned(),
            StoreError::NullViolation => "NullViolation".to_owned(),
            StoreError::Exhausted => "Exhausted".to_owned(),
            StoreError::Other(text) => text.clone(),
        }
    }
}

} // verus!
