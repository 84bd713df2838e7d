//! The response decoding pipeline: from status and body bytes to a typed
//! model or a classified error.

use vstd::prelude::*;
use crate::error::{classified, outcome, ApiError, DecodeError, Outcome};
use crate::json::{member, parse_json, parsed_json, Json, JsonV};
use crate::model::FromJson;

verus! {

/// A raw response as the transport hands it over.
#[derive(Clone, Debug, PartialEq, Eq)]
pub struct Response {
    pub status: u16,
    pub body: Vec<u8>,
}

/// How an endpoint's model sits in a success document.
#[derive(PartialEq, Eq, Structural, Clone, Copy, Debug)]
pub enum Envelope {
    /// Wrapped as `{"data": <model>}`.
    Data,
    /// The document is the model itself.
    Bare,
}

/// A 2xx status.
pub open spec fn is_success(status: u16) -> bool {
    200 <= status <= 299
}

pub fn status_is_success(status: u16) -> (r: bool)
    ensures
        r == is_success(status),
{
    200 <= status && status <= 299
}

/// The part of a success document that holds the model.
pub open spec fn unwrapped(envelope: Envelope, v: JsonV) -> Option<JsonV> {
    match envelope {
        Envelope::Data => member(v, "data"@),
        Envelope::Bare => Some(v),
    }
}

/// The model that a success document holds, where it holds one.
pub open spec fn mapped<T: FromJson>(envelope: Envelope, v: JsonV) -> Option<T::V> {
    match unwrapped(envelope, v) {
        Some(m) => T::spec_decode(m),
        None => None,
    }
}

/// What a success document decodes to.
pub open spec fn success_outcome<T: FromJson>(envelope: Envelope, v: JsonV) -> Outcome<T::V> {
    match mapped::<T>(envelope, v) {
        Some(x) => Outcome::Decoded(x),
        None => Outcome::DataType(T::spec_model_name()),
    }
}

/// What a response decodes to. The status class alone picks the branch. On
/// success an empty body stands for `null`; otherwise a body that is not
/// JSON is an error of its own. On failure a body that is empty or not JSON
/// is returned raw with the status; a JSON one is classified.
pub open spec fn response_outcome<T: FromJson>(status: u16, body: Seq<u8>, envelope: Envelope) -> Outcome<T::V> {
    if is_success(status) {
        if body.len() == 0 {
            success_outcome::<T>(envelope, JsonV::Null)
        } else {
            match parsed_json(body) {
                Some(v) => success_outcome::<T>(envelope, v),
                None => Outcome::Json,
            }
        }
    } else {
        match parsed_json(body) {
            Some(v) if body.len() > 0 => classified(v),
            _ => Outcome::Service { status, data: body },
        }
    }
}

/// Reads the model out of a success document: out of its `data` member, or
/// the document itself for a bare one.
pub fn map_model<T: FromJson>(envelope: Envelope, data: &Json) -> (r: Result<T, DecodeError>)
    ensures
        r is Ok <==> mapped::<T>(envelope, data@) is Some,
        r matches Ok(x) ==> mapped::<T>(envelope, data@) == Some(x.deep_view()),
{
    match envelope {
        Envelope::Data => match data.get("data") {
            Some(inner) => T::from_json(inner),
            None => Err(DecodeError::MissingField { field: "data" }),
        },
        Envelope::Bare => T::from_json(data),
    }
}

/// Decodes a success document into a `T`, naming `T` on failure.
fn decode_success<T: FromJson, E>(envelope: Envelope, v: &Json) -> (r: Result<T, ApiError<E>>)
    ensures
        outcome(r) == success_outcome::<T>(envelope, v@),
{
    match map_model::<T>(envelope, v) {
        Ok(x) => Ok(x),
        Err(e) => Err(ApiError::data_type(e, T::model_name())),
    }
}

/// Turns a raw response into the model `T` or a classified error.
pub fn process_response<T: FromJson, E>(rsp: &Response, envelope: Envelope) -> (r: Result<T, ApiError<E>>)
    ensures
        outcome(r) == response_outcome::<T>(rsp.status, rsp.body@, envelope),
{
    let body = rsp.body.as_slice();
    if status_is_success(rsp.status) {
        if body.len() == 0 {
            decode_success(envelope, &Json::Null)
        } else {
            match parse_json(body) {
                Ok(v) => decode_success(envelope, &v),
                Err(source) => Err(ApiError::Json { source }),
            }
        }
    } else {
        if body.len() == 0 {
            return Err(ApiError::server_error(rsp.status, body));
        }
        match parse_json(body) {
            Ok(v) => Err(ApiError::from_traduora(v)),
            Err(_) => Err(ApiError::server_error(rsp.status, body)),
        }
    }
}

} // verus!

verus! {

/// Wrapping a document `v` as `{"data": v}` and decoding it with the
/// envelope gives back exactly what `v` itself decodes to; for a raw JSON
/// target that is `v`.
pub proof fn lemma_envelope_round_trip<T: FromJson>(v: JsonV)
    ensures
        mapped::<T>(Envelope::Data, JsonV::Object(seq![("data"@, v)])) == T::spec_decode(v),
        mapped::<Json>(Envelope::Data, JsonV::Object(seq![("data"@, v)])) == Some(v),
{
    let fields = seq![("data"@, v)];
    assert(fields[0].0 == "data"@);
}

/// A success response whose body reads as `{"data": v}` decodes to what
/// `v` decodes to.
pub proof fn lemma_enveloped_response<T: FromJson>(status: u16, body: Seq<u8>, v: JsonV)
    requires
        is_success(status),
        body.len() > 0,
        parsed_json(body) == Some(JsonV::Object(seq![("data"@, v)])),
    ensures
        response_outcome::<T>(status, body, Envelope::Data) == match T::spec_decode(v) {
            Some(x) => Outcome::Decoded(x),
            None => Outcome::<T::V>::DataType(T::spec_model_name()),
        },
{
    lemma_envelope_round_trip::<T>(v);
}

/// An endpoint that expects a bare document decodes the document itself,
/// with no envelope around it.
pub proof fn lemma_bare_document<T: FromJson>(status: u16, body: Seq<u8>, v: JsonV)
    requires
        is_success(status),
        body.len() > 0,
        parsed_json(body) == Some(v),
    ensures
        response_outcome::<T>(status, body, Envelope::Bare) == match T::spec_decode(v) {
            Some(x) => Outcome::Decoded(x),
            None => Outcome::<T::V>::DataType(T::spec_model_name()),
        },
{
}

/// An empty body on a success status reads as `null`; a target that cannot
/// be `null` fails with a decoding error.
pub proof fn lemma_empty_success_body<T: FromJson>(status: u16, envelope: Envelope)
    requires
        is_success(status),
    ensures
        response_outcome::<T>(status, Seq::empty(), envelope) == success_outcome::<T>(
            envelope,
            JsonV::Null,
        ),
        mapped::<T>(envelope, JsonV::Null) is None ==> response_outcome::<T>(
            status,
            Seq::empty(),
            envelope,
        ) == Outcome::<T::V>::DataType(T::spec_model_name()),
{
}

/// A failure status with a body that is not JSON yields the service error
/// with the status and the raw bytes, whatever the target.
pub proof fn lemma_unparsable_error_body<T: FromJson>(status: u16, body: Seq<u8>, envelope: Envelope)
    requires
        !is_success(status),
        parsed_json(body) is None,
    ensures
        response_outcome::<T>(status, body, envelope) == (Outcome::<T::V>::Service { status, data: body }),
{
}

/// The branch taken depends on the status class alone: on a failure status
/// no document decodes to a model, whatever its shape.
pub proof fn lemma_failure_never_decodes<T: FromJson>(status: u16, body: Seq<u8>, envelope: Envelope)
    requires
        !is_success(status),
    ensures
        !(response_outcome::<T>(status, body, envelope) is Decoded),
{
}

} // verus!
