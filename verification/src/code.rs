//! Classification of error codes.

use crate::failure::DecodeError;
use crate::json::{integer, json_view, JsonView};
use serde_json::Value;
use vstd::prelude::*;
use vstd::std_specs::convert::FromSpecImpl;

verus! {

/// An error code, as a closed set of variants over the signed 32-bit integers.
#[derive(Clone, Copy, Debug, PartialEq, Eq, Structural)]
pub enum ErrorCode {
    /// Invalid JSON was received (`-32700`).
    ParseError,
    /// The JSON sent is not a valid request object (`-32600`).
    InvalidRequest,
    /// The method does not exist (`-32601`).
    MethodNotFound,
    /// Invalid method parameters (`-32602`).
    InvalidParams,
    /// Internal error of the peer (`-32603`).
    InternalError,
    /// An implementation-defined server error, from `-32099` to `-32000`.
    ServerError(i32),
    /// Any other code of the reserved band from `-32768` to `-32000`.
    Reserved(i32),
    /// A code outside the reserved band.
    Other(i32),
}

impl ErrorCode {
    /// The variant that an integer is classified as. The exact codes are
    /// matched first, then the server band, then the rest of the reserved
    /// band: the server band lies inside the reserved one and wins.
    pub open spec fn classify(code: i32) -> ErrorCode {
        if code == -32700 {
            ErrorCode::ParseError
        } else if code == -32600 {
            ErrorCode::InvalidRequest
        } else if code == -32601 {
            ErrorCode::MethodNotFound
        } else if code == -32602 {
            ErrorCode::InvalidParams
        } else if code == -32603 {
            ErrorCode::InternalError
        } else if -32099 <= code <= -32000 {
            ErrorCode::ServerError(code)
        } else if -32768 <= code <= -32000 {
            ErrorCode::Reserved(code)
        } else {
            ErrorCode::Other(code)
        }
    }

    /// The integer that stands for the variant on the wire.
    pub open spec fn number(self) -> i32 {
        match self {
            ErrorCode::ParseError => -32700i32,
            ErrorCode::InvalidRequest => -32600i32,
            ErrorCode::MethodNotFound => -32601i32,
            ErrorCode::InvalidParams => -32602i32,
            ErrorCode::InternalError => -32603i32,
            ErrorCode::ServerError(code) => code,
            ErrorCode::Reserved(code) => code,
            ErrorCode::Other(code) => code,
        }
    }

    /// Whether the variant is the one that its own integer is classified as.
    pub open spec fn is_canonical(self) -> bool {
        ErrorCode::classify(self.number()) == self
    }

    /// The wire form of the code: its integer.
    pub open spec fn to_wire(self) -> JsonView {
        JsonView::Integer(self.number() as int)
    }

    /// The code that a wire value stands for: a number that is held as an
    /// integer from `i32::MIN` to `i32::MAX`, classified. Every other value
    /// is refused.
    pub open spec fn from_wire(wire: JsonView) -> Result<ErrorCode, DecodeError> {
        match wire {
            JsonView::Integer(n) => if i32::MIN <= n <= i32::MAX {
                Ok(ErrorCode::classify(n as i32))
            } else {
                Err(DecodeError::InvalidCode)
            },
            _ => Err(DecodeError::InvalidCode),
        }
    }

    /// Encodes the code.
    pub fn serialize(&self) -> (out: Value)
        ensures
            json_view(out) == self.to_wire(),
    {
        let n: i32 = i32::from(*self);
        integer(n as i64)
    }

    /// Decodes a code.
    pub fn deserialize(wire: &Value) -> (out: Result<ErrorCode, DecodeError>)
        ensures
            out == ErrorCode::from_wire(json_view(*wire)),
    {
        match wire.as_i64() {
            Some(n) => if -0x8000_0000 <= n && n <= 0x7fff_ffff {
                Ok(ErrorCode::from(n as i32))
            } else {
                Err(DecodeError::InvalidCode)
            },
            None => Err(DecodeError::InvalidCode),
        }
    }

    /// Classifying an integer and projecting the variant back gives the
    /// integer again, for every integer.
    pub proof fn lemma_classify_then_number(code: i32)
        ensures
            ErrorCode::classify(code).number() == code,
            ErrorCode::classify(code).is_canonical(),
    {
    }

    /// A canonical code that is encoded and decoded again is the same code. A
    /// code that is not canonical comes back as the canonical one of its
    /// integer.
    pub proof fn lemma_round_trip(code: ErrorCode)
        ensures
            ErrorCode::from_wire(code.to_wire()) == Ok::<ErrorCode, DecodeError>(
                ErrorCode::classify(code.number()),
            ),
            code.is_canonical() ==> ErrorCode::from_wire(code.to_wire()) == Ok::<
                ErrorCode,
                DecodeError,
            >(code),
    {
    }

    /// No two integers are classified as the same variant.
    pub proof fn lemma_classify_is_injective(a: i32, b: i32)
        requires
            ErrorCode::classify(a) == ErrorCode::classify(b),
        ensures
            a == b,
    {
        ErrorCode::lemma_classify_then_number(a);
        ErrorCode::lemma_classify_then_number(b);
    }

    /// Which codes are canonical. The five exact variants are. A variant that
    /// carries an integer is, when the integer lies where the variant is
    /// produced: in the server band, in the rest of the reserved band but
    /// for the five exact codes, or outside the reserved band. So three
    /// variants may carry the same integer, and at most one of them is canonical.
    pub proof fn lemma_canonical(code: ErrorCode)
        ensures
            code.is_canonical() <==> match code {
                ErrorCode::ServerError(n) => -32099 <= n <= -32000,
                ErrorCode::Reserved(n) => -32768 <= n < -32099 && n != -32700 && n != -32600 && n
                    != -32601 && n != -32602 && n != -32603,
                ErrorCode::Other(n) => n < -32768 || n > -32000,
                _ => true,
            },
    {
    }

    /// Inside the server band no integer is ever classified as `Reserved`,
    /// and outside the reserved band every integer is `Other`.
    pub proof fn lemma_band_precedence(code: i32)
        ensures
            -32099 <= code <= -32000 ==> ErrorCode::classify(code) == ErrorCode::ServerError(code),
            ErrorCode::classify(code) is Reserved ==> -32768 <= code < -32099,
            (code < -32768 || code > -32000) <==> ErrorCode::classify(code) == ErrorCode::Other(
                code,
            ),
    {
    }
}

impl From<i32> for ErrorCode {
    /// Classifies an integer.
    fn from(code: i32) -> (out: Self)
        ensures
            out == ErrorCode::classify(code),
    {
        if code == -32700 {
            ErrorCode::ParseError
        } else if code == -32600 {
            ErrorCode::InvalidRequest
        } else if code == -32601 {
            ErrorCode::MethodNotFound
        } else if code == -32602 {
            ErrorCode::InvalidParams
        } else if code == -32603 {
            ErrorCode::InternalError
        } else if -32099 <= code && code <= -32000 {
            ErrorCode::ServerError(code)
        } else if -32768 <= code && code <= -32000 {
            ErrorCode::Reserved(code)
        } else {
            ErrorCode::Other(code)
        }
    }
}

impl FromSpecImpl<i32> for ErrorCode {
    open spec fn obeys_from_spec() -> bool {
        true
    }

    open spec fn from_spec(code: i32) -> ErrorCode {
        ErrorCode::classify(code)
    }
}

impl From<ErrorCode> for i32 {
    /// Projects a code to its integer.
    fn from(code: ErrorCode) -> (out: Self)
        ensures
            out == code.number(),
    {
        match code {
            ErrorCode::ParseError => -32700,
            ErrorCode::InvalidRequest => -32600,
            ErrorCode::MethodNotFound => -32601,
            ErrorCode::InvalidParams => -32602,
            ErrorCode::InternalError => -32603,
            ErrorCode::ServerError(code) => code,
            ErrorCode::Reserved(code) => code,
            ErrorCode::Other(code) => code,
        }
    }
}

impl FromSpecImpl<ErrorCode> for i32 {
    open spec fn obeys_from_spec() -> bool {
        true
    }

    open spec fn from_spec(code: ErrorCode) -> i32 {
        code.number()
    }
}

} // verus!
