//! The protocol version marker.

use crate::failure::DecodeError;
use crate::json::{json_view, same_text, string, JsonView};
use serde_json::Value;
use vstd::prelude::*;

verus! {

/// The supported version of the protocol. Its one wire form is the string
/// `"2.0"`.
#[derive(Clone, Copy, Debug, PartialEq, Eq, Structural)]
pub enum Version {
    /// Version 2.0.
    V2,
}

impl Version {
    /// The wire form of the version.
    pub open spec fn to_wire(self) -> JsonView {
        JsonView::String("2.0"@)
    }

    /// The version that a wire value stands for: the string `"2.0"` is
    /// version 2.0, and every other value is refused.
    pub open spec fn from_wire(wire: JsonView) -> Result<Version, DecodeError> {
        if wire == JsonView::String("2.0"@) {
            Ok(Version::V2)
        } else {
            Err(DecodeError::InvalidVersion)
        }
    }

    /// Encodes the version.
    pub fn serialize(&self) -> (out: Value)
        ensures
            json_view(out) == self.to_wire(),
    {
        string("2.0")
    }

    /// Decodes a version.
    pub fn deserialize(wire: &Value) -> (out: Result<Version, DecodeError>)
        ensures
            out == Version::from_wire(json_view(*wire)),
    {
        match wire.as_str() {
            Some(text) => if same_text(text, "2.0") {
                Ok(Version::V2)
            } else {
                Err(DecodeError::InvalidVersion)
            },
            None => Err(DecodeError::InvalidVersion),
        }
    }

    /// A version that is encoded and decoded again is the same version.
    pub proof fn lemma_round_trip(version: Version)
        ensures
            Version::from_wire(version.to_wire()) == Ok::<Version, DecodeError>(version),
    {
    }
}

} // verus!
