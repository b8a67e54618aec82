//! The ways in which an operation of the library can fail.

use vstd::prelude::*;

verus! {

/// Why an operation did not succeed.
#[derive(Clone, Copy, Debug, PartialEq, Eq, Structural)]
pub enum AppError {
    /// The operation addressed an id that no row carries.
    NotFound,
    /// A text was submitted as a protocol or method code and is none.
    ValidationError,
    /// The store could not take the write: the key is already in use, or a
    /// counter has reached the end of its range.
    StorageError,
    /// The event bus has no subscriber left to deliver to, or no publisher
    /// left to deliver from.
    ChannelClosed,
}

impl AppError {
    /// The text that describes this failure.
    pub open spec fn description(self) -> Seq<char> {
        match self {
            AppError::NotFound => "not found"@,
            AppError::ValidationError => "invalid code"@,
            AppError::StorageError => "storage error"@,
            AppError::ChannelClosed => "channel closed"@,
        }
    }

    /// Writes the failure as a short text.
    pub fn to_string(&self) -> (text: String)
        ensures
            text@ == self.description(),
    {
        match self {
            AppError::NotFound => "not found".to_owned(),
            AppError::ValidationError => "invalid code".to_owned(),
            AppError::StorageError => "storage error".to_owned(),
            AppError::ChannelClosed => "channel closed".to_owned(),
        }
    }
}

} // verus!
