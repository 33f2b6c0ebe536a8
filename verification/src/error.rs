//! What can go wrong with a command on the tournament state.

use vstd::prelude::*;

verus! {

/// Why a command was refused. A refused command changes nothing.
#[derive(Clone, Copy, Debug, PartialEq, Eq, Hash, Structural)]
pub enum StateError {
    /// A position handed to a collection does not exist in it.
    OutOfRange,
    /// A reference that was to be stored points outside the collection it refers to.
    InvalidReference,
    /// A saved document could not be read back.
    SerializationError,
}

impl StateError {
    /// The error as a line of text.
    pub fn message(&self) -> (text: String)
        ensures
            text@ == match *self {
                StateError::OutOfRange => "position out of range"@,
                StateError::InvalidReference => "reference points outside its collection"@,
                StateError::SerializationError => "document could not be read"@,
            },
    {
        match self {
            StateError::OutOfRange => "position out of range".to_owned(),
            StateError::InvalidReference => "reference points outside its collection".to_owned(),
            StateError::SerializationError => "document could not be read".to_owned(),
        }
    }
}

} // verus!
