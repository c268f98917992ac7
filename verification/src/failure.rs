//! The ways in which encoding and decoding fail.

use vstd::prelude::*;

verus! {

/// Why a wire value was refused.
#[derive(Clone, Copy, Debug, PartialEq, Eq, Structural)]
pub enum DecodeError {
    /// The value is not a JSON object.
    NotAnObject,
    /// The object has a field that the envelope does not know.
    UnknownField,
    /// A field that the envelope requires is absent.
    MissingField,
    /// The version is not the string `"2.0"`.
    InvalidVersion,
    /// The method is not a string, or not the name of the expected method.
    MethodMismatch,
    /// The method's codec refused the parameters.
    InvalidParams,
    /// The identifier is not an integer that fits in 32 bits without sign.
    InvalidId,
    /// The method's codec refused the result.
    InvalidResult,
    /// The error code is not an integer that fits in 32 bits with sign.
    InvalidCode,
    /// The error message is not a string.
    InvalidMessage,
    /// The response has neither a result nor an error.
    MissingResultOrError,
}

/// Why a value could not be put on the wire.
#[derive(Clone, Copy, Debug, PartialEq, Eq, Structural)]
pub enum EncodeError {
    /// The method's codec refused the parameters.
    Params,
    /// The method's codec refused the result.
    Result,
}

/// Whether the outcome of a decoder is the one that its model gives: the
/// same failure, or a value whose view is the model's.
pub open spec fn decoded<T: View>(out: Result<T, DecodeError>, model: Result<T::V, DecodeError>)
    -> bool {
    match out {
        Ok(value) => model == Ok::<T::V, DecodeError>(value@),
        Err(error) => model == Err::<T::V, DecodeError>(error),
    }
}

/// Whether the outcome of an encoder is the one that its model gives: the
/// same failure, or a value that holds the model's tree.
pub open spec fn encoded(
    out: Result<serde_json::Value, EncodeError>,
    model: Result<crate::json::JsonView, EncodeError>,
) -> bool {
    match out {
        Ok(value) => model == Ok::<crate::json::JsonView, EncodeError>(crate::json::json_view(value)),
        Err(error) => model == Err::<crate::json::JsonView, EncodeError>(error),
    }
}

} // verus!
