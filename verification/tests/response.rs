use jsonrpc_envelope::{
    DecodeError, EncodeError, Error, ErrorCode, Id, Method, Raw, Res, Response, Version,
};
use serde_json::Value;

fn json(text: &str) -> Value {
    serde_json::from_str(text).unwrap()
}

/// A method whose result is a number. Its codec refuses an odd result when it
/// encodes, and everything but an unsigned integer when it decodes.
#[derive(Debug)]
struct Height;

impl Method for Height {
    type Params = ();
    type Result = u64;

    fn name(&self) -> &str {
        "height"
    }

    fn serialize_params(_: &()) -> Option<Value> {
        Some(Value::Array(Vec::new()))
    }

    fn deserialize_params(wire: &Value) -> Option<()> {
        match wire.as_array() {
            Some(items) if items.is_empty() => Some(()),
            _ => None,
        }
    }

    fn serialize_result(result: &u64) -> Option<Value> {
        if result % 2 == 1 {
            return None;
        }
        Some(Value::from(*result))
    }

    fn deserialize_result(wire: &Value) -> Option<u64> {
        wire.as_u64()
    }
}

/// A method whose result is encoded as `null`.
#[derive(Debug)]
struct Forget;

impl Method for Forget {
    type Params = ();
    type Result = ();

    fn name(&self) -> &str {
        "forget"
    }

    fn serialize_params(_: &()) -> Option<Value> {
        Some(Value::Null)
    }

    fn deserialize_params(wire: &Value) -> Option<()> {
        wire.as_null()
    }

    fn serialize_result(_: &()) -> Option<Value> {
        Some(Value::Null)
    }

    fn deserialize_result(wire: &Value) -> Option<()> {
        wire.as_null()
    }
}

fn decode(text: &str) -> Result<Response<Height>, DecodeError> {
    Response::deserialize(&json(text))
}

fn decode_error(text: &str) -> DecodeError {
    decode(text).unwrap_err()
}

fn failure(code: ErrorCode, message: &str, data: &str) -> Error {
    Error { code, message: message.to_string(), data: json(data) }
}

#[test]
fn success_is_decoded() {
    let response = decode(r#"{"jsonrpc":"2.0","result":12,"id":1}"#).unwrap();
    assert_eq!(response.jsonrpc, Version::V2);
    assert_eq!(response.result.unwrap(), 12);
    assert_eq!(response.id, Some(Id(1)));
}

#[test]
fn failure_is_decoded() {
    let response = decode(
        r#"{"jsonrpc":"2.0","error":{"code":-32601,"message":"no such method","data":[1,"x"]},"id":7}"#,
    )
    .unwrap();
    let error = response.result.unwrap_err();
    assert_eq!(error.code, ErrorCode::MethodNotFound);
    assert_eq!(error.message, "no such method");
    assert_eq!(error.data, json(r#"[1,"x"]"#));
    assert_eq!(response.id, Some(Id(7)));
}

#[test]
fn result_wins_over_error() {
    let response = decode(
        r#"{"jsonrpc":"2.0","result":5,"error":{"code":-32000,"message":"boom","data":null},"id":1}"#,
    )
    .unwrap();
    assert_eq!(response.result.unwrap(), 5);
    assert_eq!(response.id, Some(Id(1)));
}

#[test]
fn neither_result_nor_error_is_refused() {
    assert_eq!(decode_error(r#"{"jsonrpc":"2.0","id":1}"#), DecodeError::MissingResultOrError);
    assert_eq!(decode_error(r#"{"jsonrpc":"2.0"}"#), DecodeError::MissingResultOrError);
    assert_eq!(decode_error(r#"{"jsonrpc":"2.0","id":null}"#), DecodeError::MissingResultOrError);
}

#[test]
fn null_error_and_null_id_stand_for_absent_fields() {
    assert_eq!(decode_error(r#"{"jsonrpc":"2.0","error":null,"id":1}"#), DecodeError::MissingResultOrError);
    assert_eq!(decode_error(r#"{"jsonrpc":"2.0","error":null,"id":null}"#), DecodeError::MissingResultOrError);
    let response = decode(r#"{"jsonrpc":"2.0","result":3,"error":null,"id":null}"#).unwrap();
    assert_eq!(response.result.unwrap(), 3);
    assert_eq!(response.id, None);
}

#[test]
fn null_result_is_handed_to_the_method() {
    let response: Response<Forget> =
        Response::deserialize(&json(r#"{"jsonrpc":"2.0","result":null,"id":1}"#)).unwrap();
    assert_eq!(response.result.unwrap(), ());
    assert_eq!(response.id, Some(Id(1)));
    let response: Response<Forget> =
        Response::deserialize(&json(r#"{"jsonrpc":"2.0","result":null,"error":null,"id":null}"#)).unwrap();
    assert_eq!(response.result.unwrap(), ());
    assert_eq!(response.id, None);
    assert_eq!(
        Response::<Forget>::deserialize(&json(r#"{"jsonrpc":"2.0","result":0,"id":1}"#)).unwrap_err(),
        DecodeError::InvalidResult
    );
}

#[test]
fn null_result_that_the_method_refuses_is_invalid_not_missing() {
    assert_eq!(decode_error(r#"{"jsonrpc":"2.0","result":null,"id":1}"#), DecodeError::InvalidResult);
    assert_eq!(
        decode_error(r#"{"jsonrpc":"2.0","result":null,"error":null,"id":1}"#),
        DecodeError::InvalidResult
    );
    assert_eq!(
        decode_error(r#"{"jsonrpc":"2.0","result":null,"error":{"code":1,"message":"m","data":null},"id":2}"#),
        DecodeError::InvalidResult
    );
}

#[test]
fn null_result_wins_over_error() {
    let response: Response<Forget> = Response::deserialize(&json(
        r#"{"jsonrpc":"2.0","result":null,"error":{"code":1,"message":"m","data":null},"id":2}"#,
    ))
    .unwrap();
    assert_eq!(response.result.unwrap(), ());
    assert_eq!(response.id, Some(Id(2)));
}

#[test]
fn response_with_an_extra_field_is_refused() {
    assert_eq!(decode_error(r#"{"jsonrpc":"2.0","result":1,"id":1,"extra":true}"#), DecodeError::UnknownField);
    assert_eq!(
        decode_error(r#"{"jsonrpc":"2.0","error":{"code":1,"message":"m","data":null},"id":1,"extra":true}"#),
        DecodeError::UnknownField
    );
    assert_eq!(decode_error(r#"{"jsonrpc":"2.0","result":1,"id":1,"method":"height"}"#), DecodeError::UnknownField);
    assert_eq!(decode_error(r#"{"jsonrpc":"2.0","id":1,"extra":true}"#), DecodeError::UnknownField);
    assert_eq!(decode_error(r#"{"extra":null}"#), DecodeError::UnknownField);
}

#[test]
fn response_that_is_no_object_is_refused() {
    assert_eq!(decode_error(r#"["2.0",1,null,1]"#), DecodeError::NotAnObject);
    assert_eq!(decode_error("null"), DecodeError::NotAnObject);
    assert_eq!(decode_error("12"), DecodeError::NotAnObject);
}

#[test]
fn response_without_a_valid_version_is_refused() {
    assert_eq!(decode_error(r#"{"result":1,"id":1}"#), DecodeError::MissingField);
    assert_eq!(decode_error(r#"{"jsonrpc":"1.0","result":1,"id":1}"#), DecodeError::InvalidVersion);
    assert_eq!(decode_error(r#"{"jsonrpc":null,"result":1,"id":1}"#), DecodeError::InvalidVersion);
}

#[test]
fn malformed_result_is_no_missing_field() {
    assert_eq!(decode_error(r#"{"jsonrpc":"2.0","result":"twelve","id":1}"#), DecodeError::InvalidResult);
    assert_eq!(decode_error(r#"{"jsonrpc":"2.0","result":-1,"id":1}"#), DecodeError::InvalidResult);
    assert_eq!(
        decode_error(r#"{"jsonrpc":"2.0","result":[],"error":{"code":1,"message":"m","data":0},"id":1}"#),
        DecodeError::InvalidResult
    );
}

#[test]
fn malformed_error_is_refused() {
    assert_eq!(decode_error(r#"{"jsonrpc":"2.0","error":"boom","id":1}"#), DecodeError::NotAnObject);
    assert_eq!(decode_error(r#"{"jsonrpc":"2.0","error":{"message":"m"},"id":1}"#), DecodeError::MissingField);
    assert_eq!(decode_error(r#"{"jsonrpc":"2.0","error":{"code":1},"id":1}"#), DecodeError::MissingField);
    assert_eq!(
        decode_error(r#"{"jsonrpc":"2.0","error":{"code":1.5,"message":"m"},"id":1}"#),
        DecodeError::InvalidCode
    );
    assert_eq!(
        decode_error(r#"{"jsonrpc":"2.0","error":{"code":2147483648,"message":"m"},"id":1}"#),
        DecodeError::InvalidCode
    );
    assert_eq!(
        decode_error(r#"{"jsonrpc":"2.0","error":{"code":1,"message":5},"id":1}"#),
        DecodeError::InvalidMessage
    );
    assert_eq!(
        decode_error(r#"{"jsonrpc":"2.0","error":{"code":1,"message":"m","more":1},"id":1}"#),
        DecodeError::UnknownField
    );
    assert_eq!(
        decode_error(r#"{"jsonrpc":"2.0","result":4,"error":{"code":"x","message":"m"},"id":1}"#),
        DecodeError::InvalidCode
    );
}

#[test]
fn malformed_id_is_refused() {
    assert_eq!(decode_error(r#"{"jsonrpc":"2.0","result":1,"id":4294967296}"#), DecodeError::InvalidId);
    assert_eq!(decode_error(r#"{"jsonrpc":"2.0","result":1,"id":0.5}"#), DecodeError::InvalidId);
    assert_eq!(decode_error(r#"{"jsonrpc":"2.0","result":1,"id":-3}"#), DecodeError::InvalidId);
    assert_eq!(decode_error(r#"{"jsonrpc":"2.0","result":1,"id":"1"}"#), DecodeError::InvalidId);
}

#[test]
fn id_may_be_null_or_left_out() {
    assert_eq!(decode(r#"{"jsonrpc":"2.0","result":1,"id":null}"#).unwrap().id, None);
    assert_eq!(decode(r#"{"jsonrpc":"2.0","result":1}"#).unwrap().id, None);
    assert_eq!(decode(r#"{"jsonrpc":"2.0","result":1,"id":0}"#).unwrap().id, Some(Id(0)));
    assert_eq!(
        decode(r#"{"jsonrpc":"2.0","result":1,"id":4294967295}"#).unwrap().id,
        Some(Id(u32::MAX))
    );
}

#[test]
fn response_fields_are_checked_in_order() {
    assert_eq!(decode_error(r#"{"jsonrpc":"1.0","result":"x","error":3,"id":-1}"#), DecodeError::InvalidVersion);
    assert_eq!(decode_error(r#"{"jsonrpc":"2.0","result":"x","error":3,"id":-1}"#), DecodeError::InvalidResult);
    assert_eq!(decode_error(r#"{"jsonrpc":"2.0","result":2,"error":3,"id":-1}"#), DecodeError::NotAnObject);
    assert_eq!(decode_error(r#"{"jsonrpc":"2.0","id":-1}"#), DecodeError::InvalidId);
}

#[test]
fn data_of_an_error_may_be_left_out() {
    let response = decode(r#"{"jsonrpc":"2.0","error":{"code":-32700,"message":"bad json"},"id":null}"#).unwrap();
    let error = response.result.unwrap_err();
    assert_eq!(error.code, ErrorCode::ParseError);
    assert_eq!(error.message, "bad json");
    assert_eq!(error.data, Value::Null);
    assert_eq!(response.id, None);
}

#[test]
fn code_of_a_decoded_error_is_classified() {
    for (code, expected) in [
        (-32700, ErrorCode::ParseError),
        (-32001, ErrorCode::ServerError(-32001)),
        (-32768, ErrorCode::Reserved(-32768)),
        (-32000, ErrorCode::ServerError(-32000)),
        (1, ErrorCode::Other(1)),
    ] {
        let text = format!(r#"{{"jsonrpc":"2.0","error":{{"code":{},"message":"m","data":null}},"id":1}}"#, code);
        let error = decode(&text).unwrap().result.unwrap_err();
        assert_eq!(error.code, expected);
        assert_eq!(error.serialize()["code"], Value::from(code));
    }
}

#[test]
fn error_is_encoded_as_an_object_of_three_fields() {
    assert_eq!(
        failure(ErrorCode::InvalidParams, "bad params", r#"{"at":2}"#).serialize(),
        json(r#"{"code":-32602,"message":"bad params","data":{"at":2}}"#)
    );
    assert_eq!(
        failure(ErrorCode::Reserved(-32000), "", "null").serialize(),
        json(r#"{"code":-32000,"message":"","data":null}"#)
    );
}

#[test]
fn error_round_trips() {
    let error = failure(ErrorCode::ServerError(-32050), "busy \"now\"", r#"[1.5,{"k":[null,true]}]"#);
    let back = Error::deserialize(&error.serialize()).unwrap();
    assert_eq!(back.code, ErrorCode::ServerError(-32050));
    assert_eq!(back.message, "busy \"now\"");
    assert_eq!(back.data, json(r#"[1.5,{"k":[null,true]}]"#));
}

#[test]
fn error_with_a_code_that_is_not_canonical_comes_back_canonical() {
    let error = failure(ErrorCode::Reserved(-32000), "m", "null");
    let back = Error::deserialize(&error.serialize()).unwrap();
    assert_eq!(back.code, ErrorCode::ServerError(-32000));
}

#[test]
fn success_is_encoded_with_exactly_a_result() {
    let response: Response<Height> = Response { jsonrpc: Version::V2, result: Ok(12), id: Some(Id(1)) };
    let wire = response.serialize().unwrap();
    assert_eq!(wire, json(r#"{"jsonrpc":"2.0","result":12,"id":1}"#));
    assert!(wire.get("error").is_none());
    assert_eq!(wire.as_object().unwrap().len(), 3);
}

#[test]
fn failure_is_encoded_with_exactly_an_error() {
    let response: Response<Height> = Response {
        jsonrpc: Version::V2,
        result: Err(failure(ErrorCode::InternalError, "oops", "7")),
        id: Some(Id(2)),
    };
    let wire = response.serialize().unwrap();
    assert_eq!(
        wire,
        json(r#"{"jsonrpc":"2.0","error":{"code":-32603,"message":"oops","data":7},"id":2}"#)
    );
    assert!(wire.get("result").is_none());
    assert_eq!(wire.as_object().unwrap().len(), 3);
}

#[test]
fn absent_id_is_encoded_as_null() {
    let response: Response<Height> = Response { jsonrpc: Version::V2, result: Ok(2), id: None };
    assert_eq!(response.serialize(), Ok(json(r#"{"jsonrpc":"2.0","result":2,"id":null}"#)));
    let response: Response<Height> = Response {
        jsonrpc: Version::V2,
        result: Err(failure(ErrorCode::ParseError, "bad json", "null")),
        id: None,
    };
    assert_eq!(
        response.serialize(),
        Ok(json(r#"{"jsonrpc":"2.0","error":{"code":-32700,"message":"bad json","data":null},"id":null}"#))
    );
}

#[test]
fn response_encoder_failure_is_surfaced() {
    let response: Response<Height> = Response { jsonrpc: Version::V2, result: Ok(3), id: Some(Id(1)) };
    assert_eq!(response.serialize(), Err(EncodeError::Result));
}

#[test]
fn success_round_trips() {
    for (result, id) in [(12, Some(Id(1))), (0, None), (u64::MAX - 1, Some(Id(u32::MAX)))] {
        let response: Response<Height> = Response { jsonrpc: Version::V2, result: Ok(result), id };
        let back: Response<Height> = Response::deserialize(&response.serialize().unwrap()).unwrap();
        assert_eq!(back.jsonrpc, Version::V2);
        assert_eq!(back.result.unwrap(), result);
        assert_eq!(back.id, id);
    }
}

#[test]
fn failure_round_trips() {
    for code in [ErrorCode::ParseError, ErrorCode::ServerError(-32099), ErrorCode::Reserved(-32768), ErrorCode::Other(0)] {
        let response: Response<Height> = Response {
            jsonrpc: Version::V2,
            result: Err(failure(code, "why", r#"{"a":[1,2]}"#)),
            id: Some(Id(3)),
        };
        let back: Response<Height> = Response::deserialize(&response.serialize().unwrap()).unwrap();
        let error = back.result.unwrap_err();
        assert_eq!(error.code, code);
        assert_eq!(error.message, "why");
        assert_eq!(error.data, json(r#"{"a":[1,2]}"#));
        assert_eq!(back.id, Some(Id(3)));
    }
}

#[test]
fn result_that_is_encoded_as_null_round_trips() {
    let response: Response<Forget> = Response { jsonrpc: Version::V2, result: Ok(()), id: Some(Id(1)) };
    let wire = response.serialize().unwrap();
    assert_eq!(wire, json(r#"{"jsonrpc":"2.0","result":null,"id":1}"#));
    let back = Response::<Forget>::deserialize(&wire).unwrap();
    assert_eq!(back.jsonrpc, Version::V2);
    assert_eq!(back.result.unwrap(), ());
    assert_eq!(back.id, Some(Id(1)));
}

#[test]
fn raw_response_is_encoded_with_the_fields_that_it_holds() {
    let both: Raw<Height> = Raw {
        jsonrpc: Version::V2,
        result: Some(Res(8)),
        error: Some(failure(ErrorCode::InternalError, "m", "null")),
        id: Some(Id(3)),
    };
    assert_eq!(
        both.serialize(),
        Ok(json(r#"{"jsonrpc":"2.0","result":8,"error":{"code":-32603,"message":"m","data":null},"id":3}"#))
    );
    let only_result: Raw<Height> =
        Raw { jsonrpc: Version::V2, result: Some(Res(2)), error: None, id: None };
    let wire = only_result.serialize().unwrap();
    assert_eq!(wire, json(r#"{"jsonrpc":"2.0","result":2,"id":null}"#));
    assert!(wire.get("error").is_none());
    let only_error: Raw<Height> = Raw {
        jsonrpc: Version::V2,
        result: None,
        error: Some(failure(ErrorCode::ParseError, "bad", "[1]")),
        id: Some(Id(0)),
    };
    let wire = only_error.serialize().unwrap();
    assert_eq!(wire, json(r#"{"jsonrpc":"2.0","error":{"code":-32700,"message":"bad","data":[1]},"id":0}"#));
    assert!(wire.get("result").is_none());
    let neither: Raw<Height> = Raw { jsonrpc: Version::V2, result: None, error: None, id: Some(Id(4)) };
    assert_eq!(neither.serialize(), Ok(json(r#"{"jsonrpc":"2.0","id":4}"#)));
}

#[test]
fn raw_response_encoder_failure_is_surfaced() {
    let raw: Raw<Height> = Raw { jsonrpc: Version::V2, result: Some(Res(3)), error: None, id: None };
    assert_eq!(raw.serialize(), Err(EncodeError::Result));
}

#[test]
fn raw_response_round_trips() {
    let raw: Raw<Height> = Raw {
        jsonrpc: Version::V2,
        result: Some(Res(8)),
        error: Some(failure(ErrorCode::ServerError(-32000), "m", r#"{"k":1}"#)),
        id: Some(Id(3)),
    };
    let back: Raw<Height> = Raw::deserialize(&raw.serialize().unwrap()).unwrap();
    assert_eq!(back.jsonrpc, Version::V2);
    assert_eq!(back.result.unwrap().0, 8);
    let error = back.error.unwrap();
    assert_eq!(error.code, ErrorCode::ServerError(-32000));
    assert_eq!(error.message, "m");
    assert_eq!(error.data, json(r#"{"k":1}"#));
    assert_eq!(back.id, Some(Id(3)));
    let neither: Raw<Forget> = Raw { jsonrpc: Version::V2, result: None, error: None, id: None };
    let back: Raw<Forget> = Raw::deserialize(&neither.serialize().unwrap()).unwrap();
    assert!(back.result.is_none());
    assert!(back.error.is_none());
    assert_eq!(back.id, None);
    let null_result: Raw<Forget> = Raw { jsonrpc: Version::V2, result: Some(Res(())), error: None, id: None };
    let back: Raw<Forget> = Raw::deserialize(&null_result.serialize().unwrap()).unwrap();
    assert!(back.result.is_some());
}

#[test]
fn response_and_its_raw_response_are_one_on_the_wire() {
    let response: Response<Height> = Response { jsonrpc: Version::V2, result: Ok(12), id: Some(Id(1)) };
    let raw: Raw<Height> = Raw { jsonrpc: Version::V2, result: Some(Res(12)), error: None, id: Some(Id(1)) };
    assert_eq!(response.serialize(), raw.serialize());
    let response: Response<Height> = Response {
        jsonrpc: Version::V2,
        result: Err(failure(ErrorCode::InvalidRequest, "no", "null")),
        id: None,
    };
    let raw: Raw<Height> = Raw {
        jsonrpc: Version::V2,
        result: None,
        error: Some(failure(ErrorCode::InvalidRequest, "no", "null")),
        id: None,
    };
    assert_eq!(response.serialize(), raw.serialize());
}

#[test]
fn raw_response_keeps_both_result_and_error() {
    let raw: Raw<Height> = Raw::deserialize(&json(
        r#"{"jsonrpc":"2.0","result":5,"error":{"code":-32000,"message":"boom","data":null},"id":1}"#,
    ))
    .unwrap();
    assert_eq!(raw.jsonrpc, Version::V2);
    assert_eq!(raw.result.as_ref().unwrap().0, 5);
    assert_eq!(raw.error.as_ref().unwrap().code, ErrorCode::ServerError(-32000));
    assert_eq!(raw.id, Some(Id(1)));
    let response = raw.reduce().unwrap();
    assert_eq!(response.result.unwrap(), 5);
    assert_eq!(response.id, Some(Id(1)));
}

#[test]
fn raw_response_may_hold_neither() {
    let raw: Raw<Height> = Raw::deserialize(&json(r#"{"jsonrpc":"2.0","id":1}"#)).unwrap();
    assert!(raw.result.is_none());
    assert!(raw.error.is_none());
    assert_eq!(raw.id, Some(Id(1)));
    assert_eq!(raw.reduce().unwrap_err(), DecodeError::MissingResultOrError);
}

#[test]
fn reduction_follows_the_precedence() {
    let both: Raw<Height> = Raw {
        jsonrpc: Version::V2,
        result: Some(Res(8)),
        error: Some(failure(ErrorCode::InternalError, "m", "null")),
        id: None,
    };
    let response = both.reduce().unwrap();
    assert_eq!(response.result.unwrap(), 8);
    assert_eq!(response.id, None);
    let only_result: Raw<Height> =
        Raw { jsonrpc: Version::V2, result: Some(Res(9)), error: None, id: Some(Id(4)) };
    assert_eq!(only_result.reduce().unwrap().result.unwrap(), 9);
    let only_error: Raw<Height> = Raw {
        jsonrpc: Version::V2,
        result: None,
        error: Some(failure(ErrorCode::InternalError, "m", "null")),
        id: Some(Id(4)),
    };
    let response = only_error.reduce().unwrap();
    assert_eq!(response.result.unwrap_err().code, ErrorCode::InternalError);
    assert_eq!(response.id, Some(Id(4)));
    let neither: Raw<Height> = Raw { jsonrpc: Version::V2, result: None, error: None, id: Some(Id(4)) };
    assert_eq!(neither.reduce().unwrap_err(), DecodeError::MissingResultOrError);
}

#[test]
fn result_codec_is_the_method_s() {
    assert_eq!(Res::<Height>(4).serialize(), Some(json("4")));
    assert_eq!(Res::<Height>(5).serialize(), None);
    assert_eq!(Res::<Height>::deserialize(&json("6")).unwrap().0, 6);
    assert!(Res::<Height>::deserialize(&json("\"6\"")).is_none());
    assert_eq!(Height.name(), "height");
    assert_eq!(Forget.name(), "forget");
    assert_eq!(Height::serialize_params(&()), Some(json("[]")));
    assert_eq!(Height::deserialize_params(&json("[]")), Some(()));
    assert_eq!(Forget::serialize_params(&()), Some(Value::Null));
    assert_eq!(Forget::deserialize_params(&Value::Null), Some(()));
}
