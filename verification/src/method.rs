//! What a remote method supplies to the envelopes.

use crate::json::{json_view, JsonView};
use serde_json::Value;
use vstd::prelude::*;

verus! {

/// What a method supplies: its name and its four codecs.
pub enum Part {
    /// The wire name.
    Name,
    /// The encoder of the parameters.
    ParamsToWire,
    /// The decoder of the parameters.
    ParamsFromWire,
    /// The encoder of the result.
    ResultToWire,
    /// The decoder of the result.
    ResultFromWire,
}

/// The model of a part that an implementation of the method `M` does not
/// spell out: for each method and each part some function, of which nothing
/// else is known.
pub open spec fn unspecified<M, A, B>(part: Part, argument: A) -> B {
    arbitrary::<spec_fn(Option<M>, Part, A) -> B>()(None, part, argument)
}

/// A remote method: its wire name, and the codecs of its parameters and of
/// its result.
///
/// The envelopes are written once against this trait and never look at which
/// method they carry. A new method is added by implementing it.
///
/// Each codec is a function of its argument alone, and a codec that refuses
/// its argument gives `None`. The spec functions are the models of the name
/// and of the four codecs, which the contracts of the envelopes speak of. An
/// implementation may define them, and is then held to them where it is
/// verified; one that leaves them out claims nothing but that its codecs are
/// functions.
pub trait Method: Sized {
    /// The parameters of a call.
    type Params;

    /// The result of a call.
    type Result;

    /// The model of [`Method::name`].
    open spec fn spec_name(&self) -> Seq<char> {
        unspecified::<Self, Self, Seq<char>>(Part::Name, *self)
    }

    /// The model of [`Method::serialize_params`].
    open spec fn params_to_wire(params: Self::Params) -> Option<JsonView> {
        unspecified::<Self, Self::Params, Option<JsonView>>(Part::ParamsToWire, params)
    }

    /// The model of [`Method::deserialize_params`].
    open spec fn params_from_wire(wire: JsonView) -> Option<Self::Params> {
        unspecified::<Self, JsonView, Option<Self::Params>>(Part::ParamsFromWire, wire)
    }

    /// The model of [`Method::serialize_result`].
    open spec fn result_to_wire(result: Self::Result) -> Option<JsonView> {
        unspecified::<Self, Self::Result, Option<JsonView>>(Part::ResultToWire, result)
    }

    /// The model of [`Method::deserialize_result`].
    open spec fn result_from_wire(wire: JsonView) -> Option<Self::Result> {
        unspecified::<Self, JsonView, Option<Self::Result>>(Part::ResultFromWire, wire)
    }

    /// The name of the method on the wire.
    fn name(&self) -> (out: &str)
        ensures
            out@ == self.spec_name(),
    ;

    /// Encodes the parameters of a call.
    fn serialize_params(params: &Self::Params) -> (out: Option<Value>)
        ensures
            match Self::params_to_wire(*params) {
                Some(wire) => out matches Some(value) && json_view(value) == wire,
                None => out is None,
            },
    ;

    /// Decodes the parameters of a call.
    fn deserialize_params(wire: &Value) -> (out: Option<Self::Params>)
        ensures
            out == Self::params_from_wire(json_view(*wire)),
    ;

    /// Encodes the result of a call.
    fn serialize_result(result: &Self::Result) -> (out: Option<Value>)
        ensures
            match Self::result_to_wire(*result) {
                Some(wire) => out matches Some(value) && json_view(value) == wire,
                None => out is None,
            },
    ;

    /// Decodes the result of a call.
    fn deserialize_result(wire: &Value) -> (out: Option<Self::Result>)
        ensures
            out == Self::result_from_wire(json_view(*wire)),
    ;
}

} // verus!
