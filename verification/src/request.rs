//! Outbound envelopes: requests and notifications.

use crate::failure::{encoded, DecodeError, EncodeError};
use crate::id::Id;
use crate::json::{fields_view, json_view, object, same_text, set_field, string, Fields, JsonView};
use crate::method::Method;
use crate::object::{lemma_field_names_differ, names, only, only_fields, required};
use crate::version::Version;
use serde_json::Value;
use vstd::prelude::*;

verus! {

/// A call that expects a reply.
#[derive(Debug)]
pub struct Request<M: Method> {
    /// The protocol version.
    pub jsonrpc: Version,
    /// The method that is called.
    pub method: M,
    /// The parameters of the call.
    pub params: M::Params,
    /// The identifier that the reply will carry.
    pub id: Id,
}

/// A call that expects no reply. It differs from a [`Request`] in having no
/// identifier, and its wire form has no `id` field at all.
#[derive(Debug)]
pub struct Notification<M: Method> {
    /// The protocol version.
    pub jsonrpc: Version,
    /// The method that is called.
    pub method: M,
    /// The parameters of the call.
    pub params: M::Params,
}

/// The fields that a request and a notification share: the version, the name
/// of the method and the wire form of the parameters.
pub open spec fn call_fields(name: Seq<char>, params: JsonView) -> Fields {
    Fields::empty().insert("jsonrpc"@, Version::V2.to_wire()).insert(
        "method"@,
        JsonView::String(name),
    ).insert("params"@, params)
}

/// The parameters that the fields of a call to the method hold. The version
/// is checked first, then the name of the method, then the parameters are
/// handed to the method's codec.
pub open spec fn call_params<M: Method>(method: M, fields: Fields) -> Result<
    M::Params,
    DecodeError,
> {
    if !fields.contains_key("jsonrpc"@) {
        Err(DecodeError::MissingField)
    } else if Version::from_wire(fields["jsonrpc"@]) is Err {
        Err(DecodeError::InvalidVersion)
    } else if !fields.contains_key("method"@) {
        Err(DecodeError::MissingField)
    } else if fields["method"@] != JsonView::String(method.spec_name()) {
        Err(DecodeError::MethodMismatch)
    } else if !fields.contains_key("params"@) {
        Err(DecodeError::MissingField)
    } else {
        match M::params_from_wire(fields["params"@]) {
            Some(params) => Ok(params),
            None => Err(DecodeError::InvalidParams),
        }
    }
}

/// Builds the fields that a request and a notification share.
fn encode_call<M: Method>(method: &M, params: &M::Params) -> (out: Result<
    serde_json::Map<String, Value>,
    EncodeError,
>)
    ensures
        match M::params_to_wire(*params) {
            Some(wire) => out matches Ok(map) && fields_view(map) == call_fields(
                method.spec_name(),
                wire,
            ),
            None => out == Err::<serde_json::Map<String, Value>, EncodeError>(EncodeError::Params),
        },
{
    let params = match M::serialize_params(params) {
        Some(value) => value,
        None => return Err(EncodeError::Params),
    };
    let mut map = serde_json::Map::new();
    set_field(&mut map, "jsonrpc", Version::V2.serialize());
    set_field(&mut map, "method", string(method.name()));
    set_field(&mut map, "params", params);
    Ok(map)
}

/// Reads the fields that a request and a notification share.
fn decode_call<M: Method>(method: &M, map: &serde_json::Map<String, Value>) -> (out: Result<
    M::Params,
    DecodeError,
>)
    ensures
        out == call_params(*method, fields_view(*map)),
{
    match required(map, "jsonrpc") {
        Ok(value) => match Version::deserialize(value) {
            Ok(_) => {},
            Err(error) => return Err(error),
        },
        Err(error) => return Err(error),
    }
    match required(map, "method") {
        Ok(value) => match value.as_str() {
            Some(name) => if !same_text(name, method.name()) {
                return Err(DecodeError::MethodMismatch);
            },
            None => return Err(DecodeError::MethodMismatch),
        },
        Err(error) => return Err(error),
    }
    match required(map, "params") {
        Ok(value) => match M::deserialize_params(value) {
            Some(params) => Ok(params),
            None => Err(DecodeError::InvalidParams),
        },
        Err(error) => Err(error),
    }
}

impl<M: Method> Request<M> {
    /// The names of the fields of a request.
    pub open spec fn field_names() -> Set<Seq<char>> {
        set!["jsonrpc"@, "method"@, "params"@, "id"@]
    }

    /// The wire form of the request: an object of its four fields, if the
    /// method's codec takes the parameters.
    pub open spec fn to_wire(self) -> Result<JsonView, EncodeError> {
        match M::params_to_wire(self.params) {
            Some(params) => Ok(
                JsonView::Object(
                    call_fields(self.method.spec_name(), params).insert("id"@, self.id.to_wire()),
                ),
            ),
            None => Err(EncodeError::Params),
        }
    }

    /// The request to the given method that a wire value stands for. The
    /// value must be an object of the four fields and no other. The fields
    /// are checked in the order version, method, parameters, identifier.
    pub open spec fn from_wire(method: M, wire: JsonView) -> Result<Request<M>, DecodeError> {
        match wire {
            JsonView::Object(fields) => if !only(fields, Self::field_names()) {
                Err(DecodeError::UnknownField)
            } else {
                match call_params(method, fields) {
                    Ok(params) => if !fields.contains_key("id"@) {
                        Err(DecodeError::MissingField)
                    } else {
                        match Id::from_wire(fields["id"@]) {
                            Ok(id) => Ok(Request { jsonrpc: Version::V2, method, params, id }),
                            Err(error) => Err(error),
                        }
                    },
                    Err(error) => Err(error),
                }
            },
            _ => Err(DecodeError::NotAnObject),
        }
    }

    /// Encodes the request.
    pub fn serialize(&self) -> (out: Result<Value, EncodeError>)
        ensures
            encoded(out, self.to_wire()),
    {
        let mut map = match encode_call(&self.method, &self.params) {
            Ok(map) => map,
            Err(error) => return Err(error),
        };
        set_field(&mut map, "id", self.id.serialize());
        Ok(object(map))
    }

    /// Decodes a request to the given method.
    pub fn deserialize(method: M, wire: &Value) -> (out: Result<Request<M>, DecodeError>)
        ensures
            out == Self::from_wire(method, json_view(*wire)),
    {
        let map = match wire.as_object() {
            Some(map) => map,
            None => return Err(DecodeError::NotAnObject),
        };
        let allowed = ["jsonrpc", "method", "params", "id"];
        assert(names(allowed@) =~= Self::field_names());
        if !only_fields(map, allowed.as_slice()) {
            return Err(DecodeError::UnknownField);
        }
        let params = match decode_call(&method, map) {
            Ok(params) => params,
            Err(error) => return Err(error),
        };
        let id = match required(map, "id") {
            Ok(value) => match Id::deserialize(value) {
                Ok(id) => id,
                Err(error) => return Err(error),
            },
            Err(error) => return Err(error),
        };
        Ok(Request { jsonrpc: Version::V2, method, params, id })
    }

    /// The wire form of a request has the four fields of a request and no
    /// other.
    pub proof fn lemma_wire_has_four_fields(request: Request<M>)
        ensures
            request.to_wire() matches Ok(JsonView::Object(fields)) ==> fields.dom()
                =~= Self::field_names(),
    {
    }

    /// An object with a field that a request does not have is refused,
    /// whatever its other fields hold.
    pub proof fn lemma_unknown_field_is_refused(method: M, fields: Fields, key: Seq<char>)
        requires
            fields.contains_key(key),
            !Self::field_names().contains(key),
        ensures
            Self::from_wire(method, JsonView::Object(fields)) == Err::<Request<M>, DecodeError>(
                DecodeError::UnknownField,
            ),
    {
    }

    /// A request that is encoded and decoded again is the same request,
    /// whenever the method's codec gives back the parameters that it encoded.
    pub proof fn lemma_round_trip(request: Request<M>)
        requires
            M::params_to_wire(request.params) matches Some(wire) && M::params_from_wire(wire)
                == Some(request.params),
        ensures
            request.to_wire() matches Ok(wire) && Self::from_wire(request.method, wire) == Ok::<
                Request<M>,
                DecodeError,
            >(request),
    {
        lemma_field_names_differ();
        let fields = request.to_wire()->Ok_0->Object_0;
        assert(only(fields, Self::field_names()));
    }
}

impl<M: Method> Notification<M> {
    /// The names of the fields of a notification.
    pub open spec fn field_names() -> Set<Seq<char>> {
        set!["jsonrpc"@, "method"@, "params"@]
    }

    /// The wire form of the notification: an object of its three fields, if
    /// the method's codec takes the parameters. It has no `id` field.
    pub open spec fn to_wire(self) -> Result<JsonView, EncodeError> {
        match M::params_to_wire(self.params) {
            Some(params) => Ok(JsonView::Object(call_fields(self.method.spec_name(), params))),
            None => Err(EncodeError::Params),
        }
    }

    /// The notification of the given method that a wire value stands for.
    /// The value must be an object of the three fields and no other: one
    /// with an `id` field is refused. The fields are checked in the order
    /// version, method, parameters.
    pub open spec fn from_wire(method: M, wire: JsonView) -> Result<Notification<M>, DecodeError> {
        match wire {
            JsonView::Object(fields) => if !only(fields, Self::field_names()) {
                Err(DecodeError::UnknownField)
            } else {
                match call_params(method, fields) {
                    Ok(params) => Ok(Notification { jsonrpc: Version::V2, method, params }),
                    Err(error) => Err(error),
                }
            },
            _ => Err(DecodeError::NotAnObject),
        }
    }

    /// Encodes the notification.
    pub fn serialize(&self) -> (out: Result<Value, EncodeError>)
        ensures
            encoded(out, self.to_wire()),
    {
        match encode_call(&self.method, &self.params) {
            Ok(map) => Ok(object(map)),
            Err(error) => Err(error),
        }
    }

    /// Decodes a notification of the given method.
    pub fn deserialize(method: M, wire: &Value) -> (out: Result<Notification<M>, DecodeError>)
        ensures
            out == Self::from_wire(method, json_view(*wire)),
    {
        let map = match wire.as_object() {
            Some(map) => map,
            None => return Err(DecodeError::NotAnObject),
        };
        let allowed = ["jsonrpc", "method", "params"];
        assert(names(allowed@) =~= Self::field_names());
        if !only_fields(map, allowed.as_slice()) {
            return Err(DecodeError::UnknownField);
        }
        match decode_call(&method, map) {
            Ok(params) => Ok(Notification { jsonrpc: Version::V2, method, params }),
            Err(error) => Err(error),
        }
    }

    /// The wire form of a notification has no `id` field: the field is left
    /// out, not set to `null`.
    pub proof fn lemma_wire_has_no_id(notification: Notification<M>)
        ensures
            notification.to_wire() matches Ok(JsonView::Object(fields)) ==> !fields.contains_key(
                "id"@,
            ) && fields.dom() =~= Self::field_names(),
    {
        lemma_field_names_differ();
    }

    /// An object with a field that a notification does not have is refused,
    /// whatever its other fields hold. The wire form of a request is such an
    /// object.
    pub proof fn lemma_unknown_field_is_refused(method: M, fields: Fields, key: Seq<char>)
        requires
            fields.contains_key(key),
            !Self::field_names().contains(key),
        ensures
            Self::from_wire(method, JsonView::Object(fields)) == Err::<
                Notification<M>,
                DecodeError,
            >(DecodeError::UnknownField),
    {
    }

    /// A notification that is encoded and decoded again is the same
    /// notification, whenever the method's codec gives back the parameters
    /// that it encoded.
    pub proof fn lemma_round_trip(notification: Notification<M>)
        requires
            M::params_to_wire(notification.params) matches Some(wire) && M::params_from_wire(wire)
                == Some(notification.params),
        ensures
            notification.to_wire() matches Ok(wire) && Self::from_wire(notification.method, wire)
                == Ok::<Notification<M>, DecodeError>(notification),
    {
        lemma_field_names_differ();
        let fields = notification.to_wire()->Ok_0->Object_0;
        assert(only(fields, Self::field_names()));
    }
}

} // verus!
