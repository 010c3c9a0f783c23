//! The entities of the chat: identifiers, tokens, users, rooms, memberships
//! and messages, with their conversions to and from the wire forms.

use vstd::prelude::*;

pub mod message;
pub mod relations;
pub mod room;
pub mod token;
pub mod user;
pub mod uuid;

verus! {

/// Why a wire entity could not become an entity of the chat.
#[derive(Clone, Copy, Debug, PartialEq, Eq, Structural)]
pub enum ConversionError {
    /// A required field is absent, or holds what cannot be read.
    MissingField,
}

impl ConversionError {
    /// The sentence that describes this error to a caller.
    pub fn message(&self) -> (text: &'static str)
        ensures
            text@ == "The protobuf entity is missing a required field"@,
    {
        "The protobuf entity is missing a required field"
    }
}

} // verus!
