//! Request and response identifiers.

use crate::failure::DecodeError;
use crate::json::{integer, json_view, JsonView};
use serde_json::Value;
use vstd::prelude::*;

verus! {

/// The identifier that matches a response to its request.
///
/// It is an unsigned 32-bit integer, so that a double holds it exactly and it
/// never has a fractional part.
#[derive(Clone, Copy, Debug, PartialEq, Eq, Hash, Structural)]
pub struct Id(pub u32);

impl Id {
    /// The wire form of the identifier: the number, held as an integer.
    pub open spec fn to_wire(self) -> JsonView {
        JsonView::Integer(self.0 as int)
    }

    /// The identifier that a wire value stands for: a number that is held as
    /// an integer from 0 to `u32::MAX`. Every other value is refused.
    pub open spec fn from_wire(wire: JsonView) -> Result<Id, DecodeError> {
        match wire {
            JsonView::Integer(n) => if 0 <= n <= u32::MAX {
                Ok(Id(n as u32))
            } else {
                Err(DecodeError::InvalidId)
            },
            _ => Err(DecodeError::InvalidId),
        }
    }

    /// Encodes the identifier.
    pub fn serialize(&self) -> (out: Value)
        ensures
            json_view(out) == self.to_wire(),
    {
        integer(self.0 as i64)
    }

    /// Decodes an identifier.
    pub fn deserialize(wire: &Value) -> (out: Result<Id, DecodeError>)
        ensures
            out == Id::from_wire(json_view(*wire)),
    {
        match wire.as_i64() {
            Some(n) => if 0 <= n && n <= 0xffff_ffff {
                Ok(Id(n as u32))
            } else {
                Err(DecodeError::InvalidId)
            },
            None => Err(DecodeError::InvalidId),
        }
    }

    /// The wire form of an identifier is a whole number below 2^32, hence
    /// below 2^53: a double holds it exactly, with no fractional part.
    pub proof fn lemma_wire_is_whole(id: Id)
        ensures
            id.to_wire() matches JsonView::Integer(n) && 0 <= n < 0x1_0000_0000
                < 0x20_0000_0000_0000,
    {
    }

    /// A wire value is accepted as an identifier exactly when it is a whole
    /// number from 0 to 2^32 - 1. In particular every number above that, and
    /// every number with a fraction, is refused.
    pub proof fn lemma_accepted_range(wire: JsonView)
        ensures
            Id::from_wire(wire) is Ok <==> (wire matches JsonView::Integer(n) && 0 <= n
                <= 0xffff_ffff),
            Id::from_wire(wire) matches Ok(id) ==> id.to_wire() == wire,
    {
    }

    /// An identifier that is encoded and decoded again is the same
    /// identifier.
    pub proof fn lemma_round_trip(id: Id)
        ensures
            Id::from_wire(id.to_wire()) == Ok::<Id, DecodeError>(id),
    {
    }
}

} // verus!
