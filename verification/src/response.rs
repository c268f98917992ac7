//! The inbound envelope: a response is exactly a result or exactly an error.

use crate::error::{Error, ErrorView};
use crate::failure::{decoded, encoded, DecodeError, EncodeError};
use crate::id::Id;
use crate::json::{field, json_view, null, object, set_field, Fields, JsonView};
use crate::method::Method;
use crate::object::{lemma_field_names_differ, names, only, only_fields, optional, present, required};
use crate::version::Version;
use serde_json::Value;
use vstd::prelude::*;

verus! {

/// The reply to a request: the result of the call or the error of the peer,
/// never both and never neither.
#[derive(Debug)]
pub struct Response<M: Method> {
    /// The protocol version.
    pub jsonrpc: Version,
    /// The result of the call, or the error that came in its place.
    pub result: Result<M::Result, Error>,
    /// The identifier of the request. The reply to a request that the peer
    /// could not read has none.
    pub id: Option<Id>,
}

/// The model of a [`Response`].
pub struct ResponseView<M: Method> {
    /// The protocol version.
    pub jsonrpc: Version,
    /// The result of the call, or the error that came in its place.
    pub result: Result<M::Result, ErrorView>,
    /// The identifier of the request, if the reply has one.
    pub id: Option<Id>,
}

/// The result of a call, as the method's codec decoded it.
pub struct Res<M: Method>(pub M::Result);

/// A response as it stands on the wire, before it is reduced: the result and
/// the error are both optional.
pub struct Raw<M: Method> {
    /// The protocol version.
    pub jsonrpc: Version,
    /// The result, if the object has one.
    pub result: Option<Res<M>>,
    /// The error, if the object has one.
    pub error: Option<Error>,
    /// The identifier, if the object has one.
    pub id: Option<Id>,
}

/// The model of a [`Raw`].
pub struct RawView<M: Method> {
    /// The protocol version.
    pub jsonrpc: Version,
    /// The result, if the object has one.
    pub result: Option<M::Result>,
    /// The error, if the object has one.
    pub error: Option<ErrorView>,
    /// The identifier, if the object has one.
    pub id: Option<Id>,
}

impl<M: Method> View for Response<M> {
    type V = ResponseView<M>;

    open spec fn view(&self) -> ResponseView<M> {
        ResponseView {
            jsonrpc: self.jsonrpc,
            result: match self.result {
                Ok(result) => Ok(result),
                Err(error) => Err(error@),
            },
            id: self.id,
        }
    }
}

impl<M: Method> View for Raw<M> {
    type V = RawView<M>;

    open spec fn view(&self) -> RawView<M> {
        RawView {
            jsonrpc: self.jsonrpc,
            result: match self.result {
                Some(result) => Some(result.0),
                None => None,
            },
            error: match self.error {
                Some(error) => Some(error@),
                None => None,
            },
            id: self.id,
        }
    }
}

impl<M: Method> RawView<M> {
    /// The names of the fields of a response.
    pub open spec fn field_names() -> Set<Seq<char>> {
        set!["jsonrpc"@, "result"@, "error"@, "id"@]
    }

    /// The raw response that the fields of an object stand for. The version
    /// is required. The result is there when the object has the key,
    /// whatever its value: it is then handed to the method's codec, `null`
    /// too, and a value that the codec refuses is an invalid result, not a
    /// missing one. The error and the identifier are each there when the
    /// object has the key with a value other than `null`. The fields are
    /// checked in the order version, result, error, identifier.
    pub open spec fn from_fields(fields: Fields) -> Result<RawView<M>, DecodeError> {
        if !only(fields, Self::field_names()) {
            Err(DecodeError::UnknownField)
        } else if !fields.contains_key("jsonrpc"@) {
            Err(DecodeError::MissingField)
        } else if Version::from_wire(fields["jsonrpc"@]) is Err {
            Err(DecodeError::InvalidVersion)
        } else if fields.contains_key("result"@) && M::result_from_wire(fields["result"@])
            is None {
            Err(DecodeError::InvalidResult)
        } else if present(fields, "error"@) && ErrorView::from_wire(fields["error"@]) is Err {
            Err(ErrorView::from_wire(fields["error"@])->Err_0)
        } else if present(fields, "id"@) && Id::from_wire(fields["id"@]) is Err {
            Err(DecodeError::InvalidId)
        } else {
            Ok(
                RawView {
                    jsonrpc: Version::V2,
                    result: if fields.contains_key("result"@) {
                        M::result_from_wire(fields["result"@])
                    } else {
                        None
                    },
                    error: if present(fields, "error"@) {
                        Some(ErrorView::from_wire(fields["error"@])->Ok_0)
                    } else {
                        None
                    },
                    id: if present(fields, "id"@) {
                        Some(Id::from_wire(fields["id"@])->Ok_0)
                    } else {
                        None
                    },
                },
            )
        }
    }

    /// The raw response that a wire value stands for.
    pub open spec fn from_wire(wire: JsonView) -> Result<RawView<M>, DecodeError> {
        match wire {
            JsonView::Object(fields) => Self::from_fields(fields),
            _ => Err(DecodeError::NotAnObject),
        }
    }

    /// The response that the raw response reduces to. A result makes it a
    /// success, whether or not there is an error beside it. An error without
    /// a result makes it a failure. With neither there is no response.
    pub open spec fn reduce(self) -> Result<ResponseView<M>, DecodeError> {
        match (self.result, self.error) {
            (Some(result), _) => Ok(
                ResponseView { jsonrpc: self.jsonrpc, result: Ok(result), id: self.id },
            ),
            (None, Some(error)) => Ok(
                ResponseView { jsonrpc: self.jsonrpc, result: Err(error), id: self.id },
            ),
            (None, None) => Err(DecodeError::MissingResultOrError),
        }
    }

    /// The fields with the error among them, if there is one.
    pub open spec fn with_error(fields: Fields, error: Option<ErrorView>) -> Fields {
        match error {
            Some(error) => fields.insert("error"@, error.to_wire()),
            None => fields,
        }
    }

    /// The wire form of the raw response: an object of the version, of the
    /// result if there is one, of the error if there is one, and of the
    /// identifier. A result or an error that is not there is left out, and
    /// an identifier that is not there is `null`. A raw response with a
    /// result is encoded if the method's codec takes the result.
    pub open spec fn to_wire(self) -> Result<JsonView, EncodeError> {
        let fields = Fields::empty().insert("jsonrpc"@, Version::V2.to_wire());
        match self.result {
            Some(result) => match M::result_to_wire(result) {
                Some(wire) => Ok(
                    JsonView::Object(
                        Self::with_error(fields.insert("result"@, wire), self.error).insert(
                            "id"@,
                            ResponseView::<M>::id_to_wire(self.id),
                        ),
                    ),
                ),
                None => Err(EncodeError::Result),
            },
            None => Ok(
                JsonView::Object(
                    Self::with_error(fields, self.error).insert(
                        "id"@,
                        ResponseView::<M>::id_to_wire(self.id),
                    ),
                ),
            ),
        }
    }

    /// A raw response that is encoded and decoded again is the same raw
    /// response, whenever the method's codec gives back the result that it
    /// encoded, if there is a result, and the code of the error is
    /// canonical, if there is an error.
    pub proof fn lemma_round_trip(raw: RawView<M>)
        requires
            raw.result matches Some(result) ==> M::result_to_wire(result) matches Some(wire)
                && M::result_from_wire(wire) == Some(result),
            raw.error matches Some(error) ==> error.code.is_canonical(),
        ensures
            raw.to_wire() matches Ok(wire) && Self::from_wire(wire) == Ok::<
                RawView<M>,
                DecodeError,
            >(raw),
    {
        lemma_field_names_differ();
        let fields = raw.to_wire()->Ok_0->Object_0;
        assert(only(fields, Self::field_names()));
        assert(fields.contains_key("result"@) <==> raw.result is Some);
        assert(fields.contains_key("error"@) <==> raw.error is Some);
        match raw.error {
            Some(error) => {
                ErrorView::lemma_round_trip(error);
            },
            None => {},
        }
        match raw.id {
            Some(id) => {
                Id::lemma_round_trip(id);
            },
            None => {},
        }
    }
}

impl<M: Method> ResponseView<M> {
    /// The wire form of the identifier of a response: the number, or `null`
    /// where there is none.
    pub open spec fn id_to_wire(id: Option<Id>) -> JsonView {
        match id {
            Some(id) => id.to_wire(),
            None => JsonView::Null,
        }
    }

    /// The wire form of the response: an object of the version, the
    /// identifier, and exactly one of `result` and `error`. A success is
    /// encoded if the method's codec takes the result.
    pub open spec fn to_wire(self) -> Result<JsonView, EncodeError> {
        let fields = Fields::empty().insert("jsonrpc"@, Version::V2.to_wire());
        match self.result {
            Ok(result) => match M::result_to_wire(result) {
                Some(wire) => Ok(
                    JsonView::Object(
                        fields.insert("result"@, wire).insert("id"@, Self::id_to_wire(self.id)),
                    ),
                ),
                None => Err(EncodeError::Result),
            },
            Err(error) => Ok(
                JsonView::Object(
                    fields.insert("error"@, error.to_wire()).insert(
                        "id"@,
                        Self::id_to_wire(self.id),
                    ),
                ),
            ),
        }
    }

    /// The response that a wire value stands for: the raw response that it
    /// stands for, reduced.
    pub open spec fn from_wire(wire: JsonView) -> Result<ResponseView<M>, DecodeError> {
        match RawView::<M>::from_wire(wire) {
            Ok(raw) => raw.reduce(),
            Err(error) => Err(error),
        }
    }
}

impl<M: Method> ResponseView<M> {
    /// The raw response that holds what the response holds: the result of a
    /// success and no error, or the error of a failure and no result.
    pub open spec fn raw(self) -> RawView<M> {
        RawView {
            jsonrpc: self.jsonrpc,
            result: match self.result {
                Ok(result) => Some(result),
                Err(_) => None,
            },
            error: match self.result {
                Ok(_) => None,
                Err(error) => Some(error),
            },
            id: self.id,
        }
    }

    /// A response and its raw response are one on the wire, and the raw
    /// response reduces to the response.
    pub proof fn lemma_raw(response: ResponseView<M>)
        ensures
            response.raw().to_wire() == response.to_wire(),
            response.raw().reduce() == Ok::<ResponseView<M>, DecodeError>(response),
    {
    }

    /// A response that is encoded and decoded again is the same response:
    /// a success, whenever the method's codec gives back the result that it
    /// encoded; a failure, whenever the code of the error is canonical.
    pub proof fn lemma_round_trip(response: ResponseView<M>)
        requires
            match response.result {
                Ok(result) => M::result_to_wire(result) matches Some(wire) && M::result_from_wire(
                    wire,
                ) == Some(result),
                Err(error) => error.code.is_canonical(),
            },
        ensures
            response.to_wire() matches Ok(wire) && Self::from_wire(wire) == Ok::<
                ResponseView<M>,
                DecodeError,
            >(response),
    {
        lemma_field_names_differ();
        let fields = response.to_wire()->Ok_0->Object_0;
        assert(only(fields, RawView::<M>::field_names()));
        match response.result {
            Ok(result) => {
                assert(!fields.contains_key("error"@));
            },
            Err(error) => {
                ErrorView::lemma_round_trip(error);
                assert(!fields.contains_key("result"@));
            },
        }
        match response.id {
            Some(id) => {
                Id::lemma_round_trip(id);
            },
            None => {},
        }
    }

    /// The wire form of a response holds exactly one of `result` and
    /// `error`: the first for a success, the second for a failure.
    pub proof fn lemma_wire_has_exactly_one(response: ResponseView<M>)
        ensures
            response.to_wire() matches Ok(JsonView::Object(fields)) ==> (fields.contains_key(
                "result"@,
            ) <==> response.result is Ok) && (fields.contains_key("error"@)
                <==> response.result is Err),
    {
        lemma_field_names_differ();
    }

    /// When an object is accepted as a response: it has no field but the
    /// four of a response; its version is the string `"2.0"`; its result,
    /// if it has the key, is one that the method's codec takes; its error,
    /// if it has one, is well formed; its identifier, if it has one, is an
    /// identifier; and it has a result or an error.
    pub proof fn lemma_accepted(fields: Fields)
        ensures
            Self::from_wire(JsonView::Object(fields)) is Ok <==> (only(
                fields,
                RawView::<M>::field_names(),
            ) && fields.contains_key("jsonrpc"@) && fields["jsonrpc"@] == JsonView::String("2.0"@)
                && (fields.contains_key("result"@) ==> M::result_from_wire(fields["result"@])
                is Some) && (present(fields, "error"@) ==> ErrorView::from_wire(fields["error"@])
                is Ok) && (present(fields, "id"@) ==> Id::from_wire(fields["id"@]) is Ok) && (
            fields.contains_key("result"@) || present(fields, "error"@))),
    {
    }

    /// The result wins: an object that holds a result, and whose fields are
    /// all well formed, is a success with that result, whether or not it
    /// holds an error too. A result that is `null` is a result like any
    /// other: it is the method's codec that takes or refuses it.
    pub proof fn lemma_result_wins(fields: Fields)
        requires
            fields.contains_key("result"@),
            RawView::<M>::from_fields(fields) is Ok,
        ensures
            Self::from_wire(JsonView::Object(fields)) matches Ok(response) && response.result
                == Ok::<M::Result, ErrorView>(M::result_from_wire(fields["result"@])->Some_0),
    {
    }

    /// An error without a result is a failure: an object that holds an error
    /// and no result, and whose fields are all well formed, is a failure
    /// with that error.
    pub proof fn lemma_error_without_result(fields: Fields)
        requires
            !fields.contains_key("result"@),
            present(fields, "error"@),
            RawView::<M>::from_fields(fields) is Ok,
        ensures
            Self::from_wire(JsonView::Object(fields)) matches Ok(response) && response.result
                == Err::<M::Result, ErrorView>(ErrorView::from_wire(fields["error"@])->Ok_0),
    {
    }

    /// An object that holds neither a result nor an error is refused, and
    /// for that reason if its fields are otherwise well formed.
    pub proof fn lemma_neither_is_refused(fields: Fields)
        requires
            !fields.contains_key("result"@),
            !present(fields, "error"@),
        ensures
            Self::from_wire(JsonView::Object(fields)) is Err,
            RawView::<M>::from_fields(fields) is Ok ==> Self::from_wire(JsonView::Object(fields))
                == Err::<ResponseView<M>, DecodeError>(DecodeError::MissingResultOrError),
    {
    }

    /// An object with a field that a response does not have is refused,
    /// whatever its other fields hold.
    pub proof fn lemma_unknown_field_is_refused(fields: Fields, key: Seq<char>)
        requires
            fields.contains_key(key),
            !RawView::<M>::field_names().contains(key),
        ensures
            Self::from_wire(JsonView::Object(fields)) == Err::<ResponseView<M>, DecodeError>(
                DecodeError::UnknownField,
            ),
    {
    }

    /// A value that is decoded as a response is an object that holds a
    /// result or an error, and it is a success exactly when it holds a
    /// result.
    pub proof fn lemma_decoded_has_one(wire: JsonView)
        requires
            Self::from_wire(wire) is Ok,
        ensures
            wire matches JsonView::Object(fields) && (fields.contains_key("result"@) || present(
                fields,
                "error"@,
            )),
            Self::from_wire(wire)->Ok_0.result is Ok <==> wire->Object_0.contains_key("result"@),
    {
    }
}

impl<M: Method> Res<M> {
    /// Encodes the result with the method's codec.
    pub fn serialize(&self) -> (out: Option<Value>)
        ensures
            match M::result_to_wire(self.0) {
                Some(wire) => out matches Some(value) && json_view(value) == wire,
                None => out is None,
            },
    {
        M::serialize_result(&self.0)
    }

    /// Decodes a result with the method's codec.
    pub fn deserialize(wire: &Value) -> (out: Option<Res<M>>)
        ensures
            match M::result_from_wire(json_view(*wire)) {
                Some(result) => out == Some(Res::<M>(result)),
                None => out is None,
            },
    {
        match M::deserialize_result(wire) {
            Some(result) => Some(Res(result)),
            None => None,
        }
    }
}

impl<M: Method> Raw<M> {
    /// Decodes a raw response.
    pub fn deserialize(wire: &Value) -> (out: Result<Raw<M>, DecodeError>)
        ensures
            decoded(out, RawView::<M>::from_wire(json_view(*wire))),
    {
        let map = match wire.as_object() {
            Some(map) => map,
            None => return Err(DecodeError::NotAnObject),
        };
        let allowed = ["jsonrpc", "result", "error", "id"];
        assert(names(allowed@) =~= RawView::<M>::field_names());
        if !only_fields(map, allowed.as_slice()) {
            return Err(DecodeError::UnknownField);
        }
        let jsonrpc = match required(map, "jsonrpc") {
            Ok(value) => match Version::deserialize(value) {
                Ok(version) => version,
                Err(error) => return Err(error),
            },
            Err(error) => return Err(error),
        };
        let result = match field(map, "result") {
            Some(value) => match Res::<M>::deserialize(value) {
                Some(result) => Some(result),
                None => return Err(DecodeError::InvalidResult),
            },
            None => None,
        };
        let error = match optional(map, "error") {
            Some(value) => match Error::deserialize(value) {
                Ok(error) => Some(error),
                Err(error) => return Err(error),
            },
            None => None,
        };
        let id = match optional(map, "id") {
            Some(value) => match Id::deserialize(value) {
                Ok(id) => Some(id),
                Err(error) => return Err(error),
            },
            None => None,
        };
        Ok(Raw { jsonrpc, result, error, id })
    }

    /// Encodes the raw response.
    pub fn serialize(&self) -> (out: Result<Value, EncodeError>)
        ensures
            encoded(out, self@.to_wire()),
    {
        let mut map = serde_json::Map::new();
        set_field(&mut map, "jsonrpc", Version::V2.serialize());
        match &self.result {
            Some(result) => match result.serialize() {
                Some(value) => set_field(&mut map, "result", value),
                None => return Err(EncodeError::Result),
            },
            None => {},
        }
        match &self.error {
            Some(error) => set_field(&mut map, "error", error.serialize()),
            None => {},
        }
        let id = match &self.id {
            Some(id) => id.serialize(),
            None => null(),
        };
        set_field(&mut map, "id", id);
        Ok(object(map))
    }

    /// Reduces the raw response to a response.
    pub fn reduce(self) -> (out: Result<Response<M>, DecodeError>)
        ensures
            decoded(out, self@.reduce()),
    {
        match (self.result, self.error) {
            (Some(result), _) => Ok(
                Response { jsonrpc: self.jsonrpc, result: Ok(result.0), id: self.id },
            ),
            (None, Some(error)) => Ok(
                Response { jsonrpc: self.jsonrpc, result: Err(error), id: self.id },
            ),
            (None, None) => Err(DecodeError::MissingResultOrError),
        }
    }
}

impl<M: Method> Response<M> {
    /// Encodes the response.
    pub fn serialize(&self) -> (out: Result<Value, EncodeError>)
        ensures
            encoded(out, self@.to_wire()),
    {
        let mut map = serde_json::Map::new();
        set_field(&mut map, "jsonrpc", Version::V2.serialize());
        match &self.result {
            Ok(result) => match M::serialize_result(result) {
                Some(value) => set_field(&mut map, "result", value),
                None => return Err(EncodeError::Result),
            },
            Err(error) => set_field(&mut map, "error", error.serialize()),
        }
        let id = match &self.id {
            Some(id) => id.serialize(),
            None => null(),
        };
        set_field(&mut map, "id", id);
        Ok(object(map))
    }

    /// Decodes a response: first the raw response, then its reduction.
    pub fn deserialize(wire: &Value) -> (out: Result<Response<M>, DecodeError>)
        ensures
            decoded(out, ResponseView::<M>::from_wire(json_view(*wire))),
    {
        match Raw::<M>::deserialize(wire) {
            Ok(raw) => raw.reduce(),
            Err(error) => Err(error),
        }
    }
}

} // verus!
