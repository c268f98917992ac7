//! The error that a peer returns in place of a result.

use crate::code::ErrorCode;
use crate::failure::{decoded, DecodeError};
use crate::json::{field, fields_view, json_view, null, object, set_field, string, Fields, JsonView};
use crate::object::{names, only, only_fields, required};
use serde_json::Value;
use vstd::prelude::*;

verus! {

/// An error of the protocol or of the application, as a response carries it.
#[derive(Debug)]
pub struct Error {
    /// The class of the error.
    pub code: ErrorCode,
    /// A short description.
    pub message: String,
    /// Whatever else the peer sent with it; `null` if nothing.
    pub data: Value,
}

/// The model of an [`Error`].
pub struct ErrorView {
    /// The class of the error.
    pub code: ErrorCode,
    /// A short description.
    pub message: Seq<char>,
    /// Whatever else the peer sent with it; `null` if nothing.
    pub data: JsonView,
}

impl View for Error {
    type V = ErrorView;

    open spec fn view(&self) -> ErrorView {
        ErrorView { code: self.code, message: self.message@, data: json_view(self.data) }
    }
}

impl Clone for Error {
    /// Makes an error with the same code, message and data.
    fn clone(&self) -> (out: Self)
        ensures
            out@ == self@,
    {
        Error { code: self.code, message: self.message.clone(), data: self.data.clone() }
    }
}

impl ErrorView {
    /// The names of the fields of an error object.
    pub open spec fn field_names() -> Set<Seq<char>> {
        set!["code"@, "message"@, "data"@]
    }

    /// The wire form of the error: an object of its three fields.
    pub open spec fn to_wire(self) -> JsonView {
        JsonView::Object(
            Fields::empty().insert("code"@, self.code.to_wire()).insert(
                "message"@,
                JsonView::String(self.message),
            ).insert("data"@, self.data),
        )
    }

    /// The error that the fields of an object stand for. The code and the
    /// message are required; data that is left out is `null`.
    pub open spec fn from_fields(fields: Fields) -> Result<ErrorView, DecodeError> {
        if !only(fields, Self::field_names()) {
            Err(DecodeError::UnknownField)
        } else if !fields.contains_key("code"@) {
            Err(DecodeError::MissingField)
        } else if ErrorCode::from_wire(fields["code"@]) is Err {
            Err(DecodeError::InvalidCode)
        } else if !fields.contains_key("message"@) {
            Err(DecodeError::MissingField)
        } else if !(fields["message"@] is String) {
            Err(DecodeError::InvalidMessage)
        } else {
            Ok(
                ErrorView {
                    code: ErrorCode::from_wire(fields["code"@])->Ok_0,
                    message: fields["message"@]->String_0,
                    data: if fields.contains_key("data"@) {
                        fields["data"@]
                    } else {
                        JsonView::Null
                    },
                },
            )
        }
    }

    /// The error that a wire value stands for.
    pub open spec fn from_wire(wire: JsonView) -> Result<ErrorView, DecodeError> {
        match wire {
            JsonView::Object(fields) => Self::from_fields(fields),
            _ => Err(DecodeError::NotAnObject),
        }
    }

    /// An object with a field that an error does not have is refused,
    /// whatever its other fields hold.
    pub proof fn lemma_unknown_field_is_refused(fields: Fields, key: Seq<char>)
        requires
            fields.contains_key(key),
            !Self::field_names().contains(key),
        ensures
            Self::from_wire(JsonView::Object(fields)) == Err::<ErrorView, DecodeError>(
                DecodeError::UnknownField,
            ),
    {
    }

    /// An error with a canonical code that is encoded and decoded again is
    /// the same error.
    pub proof fn lemma_round_trip(error: ErrorView)
        requires
            error.code.is_canonical(),
        ensures
            ErrorView::from_wire(error.to_wire()) == Ok::<ErrorView, DecodeError>(error),
    {
        crate::object::lemma_field_names_differ();
        let fields = error.to_wire()->Object_0;
        assert(only(fields, Self::field_names()));
    }
}

impl Error {
    /// Encodes the error.
    pub fn serialize(&self) -> (out: Value)
        ensures
            json_view(out) == self@.to_wire(),
    {
        let mut map = serde_json::Map::new();
        set_field(&mut map, "code", self.code.serialize());
        set_field(&mut map, "message", string(self.message.as_str()));
        set_field(&mut map, "data", self.data.clone());
        object(map)
    }

    /// Decodes an error.
    pub fn deserialize(wire: &Value) -> (out: Result<Error, DecodeError>)
        ensures
            decoded(out, ErrorView::from_wire(json_view(*wire))),
    {
        let map = match wire.as_object() {
            Some(map) => map,
            None => return Err(DecodeError::NotAnObject),
        };
        let allowed = ["code", "message", "data"];
        assert(names(allowed@) =~= ErrorView::field_names());
        if !only_fields(map, allowed.as_slice()) {
            return Err(DecodeError::UnknownField);
        }
        let code = match required(map, "code") {
            Ok(value) => match ErrorCode::deserialize(value) {
                Ok(code) => code,
                Err(error) => return Err(error),
            },
            Err(error) => return Err(error),
        };
        let message = match required(map, "message") {
            Ok(value) => match value.as_str() {
                Some(text) => text.to_owned(),
                None => return Err(DecodeError::InvalidMessage),
            },
            Err(error) => return Err(error),
        };
        let data = match field(map, "data") {
            Some(value) => value.clone(),
            None => null(),
        };
        Ok(Error { code, message, data })
    }
}

} // verus!
