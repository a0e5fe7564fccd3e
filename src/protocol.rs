//! Plain types of the wire protocol.

use vstd::prelude::*;

verus! {

/// Why a message of the wire protocol could not be read.
#[derive(Debug, Clone, Copy, PartialEq, Eq, Structural)]
pub enum ParseError {
    /// The buffer is too short.
    TooShort,
    /// The data is invalid.
    InvalidData,
}

impl ParseError {
    /// The message that describes the error.
    pub fn message(&self) -> (r: &'static str)
        ensures
            r@ == match self {
                ParseError::TooShort => "Buffer is too short"@,
                ParseError::InvalidData => "Invalid data"@,
            },
    {
        match self {
            ParseError::TooShort => "Buffer is too short",
            ParseError::InvalidData => "Invalid data",
        }
    }
}

/// How a protocol metatype relates to another one.
#[derive(Debug, Eq, PartialEq)]
pub enum MetaRelation {
    Parent,
    Length,
    Item,
    Field(&'static str),
}

} // verus!
