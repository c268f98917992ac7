//! Envelope types and error taxonomy of a JSON-RPC 2.0 protocol layer.
//!
//! Requests, notifications and responses are generic over a [`Method`], which
//! supplies the wire name of a remote method and the codecs of its parameters
//! and of its result. Envelopes are encoded to and decoded from
//! `serde_json::Value`; every contract is stated over [`JsonView`], the
//! mathematical model of such a value.

pub mod code;
pub mod error;
pub mod failure;
pub mod id;
pub mod json;
pub mod method;
pub mod object;
pub mod request;
pub mod response;
pub mod version;

pub use code::ErrorCode;
pub use error::{Error, ErrorView};
pub use failure::{DecodeError, EncodeError};
pub use id::Id;
pub use json::{fields_view, json_view, Fields, JsonView};
pub use method::Method;
pub use request::{Notification, Request};
pub use response::{Raw, RawView, Res, Response, ResponseView};
pub use version::Version;
