//! The query front door: a default-model query and a custom-model query,
//! both over the one decoding pipeline.

use vstd::prelude::*;
use crate::auth::{Authenticated, Scope};
use crate::endpoint::{build_request_with_body, request_spec, Built, Endpoint, Request, RequestV};
use crate::error::{outcome, ApiError, Outcome};
use crate::model::FromJson;
use crate::json::{parsed_json, JsonV};
use crate::response::{is_success, process_response, response_outcome, Envelope, Response};

verus! {

/// The type that an endpoint decodes to by default, and where the server
/// puts it in a success document.
pub trait DefaultModel: Endpoint {
    type Model: FromJson;

    spec fn spec_envelope() -> Envelope;

    /// Most endpoints wrap their model as `{"data": <model>}`; those that
    /// do not answer with [`Envelope::Bare`].
    fn envelope() -> (r: Envelope)
        ensures
            r == Self::spec_envelope(),
    ;
}

/// A client that can communicate with an instance via REST.
pub trait RestClient {
    /// The errors which may occur for this client.
    type Error;

    /// The permission level the client has.
    type AccessLevel: Scope;

    /// The API root that endpoint paths are resolved against. A client that
    /// does not say leaves it unknown.
    open spec fn spec_rest_url(&self) -> Seq<char> {
        arbitrary()
    }

    /// The API root that endpoint paths are resolved against.
    fn rest_url(&self) -> (r: &str)
        ensures
            r@ == self.spec_rest_url(),
    ;
}

/// A client that performs one blocking HTTP exchange per request.
pub trait Client: RestClient {
    /// What the client may return for `request`. A client that does not say
    /// may return anything.
    open spec fn spec_rest(&self, request: RequestV, result: Result<Response, Self::Error>) -> bool {
        true
    }

    /// Sends the request (with the client's credential) and returns the raw
    /// response. What comes back is up to the transport; `spec_rest` is what
    /// an implementation says of it.
    fn rest(&self, request: Request) -> (r: Result<Response, Self::Error>)
        ensures
            self.spec_rest(request@, r),
    ;
}

/// What a query of `endpoint` through `client` ends in, reading the model
/// as `envelope` says. A request that cannot be built ends in that error
/// (an unresolvable URL first, a failing body second) and `client` is not
/// called. Otherwise the client is called once with the built request: its
/// failure comes back as `Client`, and its response is decoded.
pub open spec fn query_spec<E: Endpoint, T: FromJson, C: Client>(
    endpoint: &E,
    client: &C,
    envelope: Envelope,
    r: Result<T, ApiError<C::Error>>,
) -> bool {
    match request_spec(endpoint, client.spec_rest_url()) {
        Built::UrlParse => r matches Err(ApiError::UrlParse { .. }),
        Built::Body(be) => r == Err::<T, ApiError<C::Error>>(ApiError::Body { source: be }),
        Built::Request(req) => exists|t: Result<Response, C::Error>|
            #[trigger] client.spec_rest(req, t) && match t {
                Err(source) => r == Err::<T, ApiError<C::Error>>(ApiError::Client { source }),
                Ok(rsp) => outcome(r) == response_outcome::<T>(rsp.status, rsp.body@, envelope),
            },
    }
}

/// Builds the request, sends it through `client` and decodes the response
/// into `T` as `envelope` says.
fn run_query<E: Endpoint, T: FromJson, C: Client>(endpoint: &E, client: &C, envelope: Envelope) -> (r: Result<
    T,
    ApiError<C::Error>,
>)
    ensures
        query_spec(endpoint, client, envelope, r),
{
    let req = match build_request_with_body::<E, C::Error>(endpoint, client.rest_url()) {
        Ok(req) => req,
        Err(e) => return Err(e),
    };
    let ghost q = req@;
    let t = client.rest(req);
    let ghost t0 = t;
    match t {
        Ok(rsp) => {
            let r = process_response::<T, C::Error>(&rsp, envelope);
            assert(client.spec_rest(q, t0));
            r
        },
        Err(source) => {
            assert(client.spec_rest(q, t0));
            Err(ApiError::Client { source })
        },
    }
}

/// A query into the endpoint's own model.
///
/// It is available only where the endpoint's scope can be had from the
/// client's.
pub trait Query<C: Client>: DefaultModel + Sized {
    /// Performs the query against the client.
    fn query(&self, client: &C) -> (r: Result<Self::Model, ApiError<C::Error>>)
        ensures
            query_spec(self, client, Self::spec_envelope(), r),
    ;
}

impl<C: Client, E: DefaultModel> Query<C> for E where E::AccessControl: From<C::AccessLevel> {
    fn query(&self, client: &C) -> (r: Result<E::Model, ApiError<C::Error>>) {
        run_query::<E, E::Model, C>(self, client, E::envelope())
    }
}

/// A query into a type that the caller names, read from the same place in
/// the response as the endpoint's own model.
pub trait CustomQuery<T: FromJson, C: Client>: DefaultModel + Sized {
    /// Performs the query against the client.
    fn query_custom(&self, client: &C) -> (r: Result<T, ApiError<C::Error>>)
        ensures
            query_spec(self, client, Self::spec_envelope(), r),
    ;
}

impl<T: FromJson, C: Client, E: DefaultModel> CustomQuery<T, C> for E where
    E::AccessControl: From<C::AccessLevel>,
 {
    fn query_custom(&self, client: &C) -> (r: Result<T, ApiError<C::Error>>) {
        run_query::<E, T, C>(self, client, E::envelope())
    }
}

/// A client that answers every request with an empty success response,
/// for examples.
#[derive(Clone, Copy, Debug)]
pub struct DummyClient;

impl RestClient for DummyClient {
    type Error = ();

    type AccessLevel = Authenticated;

    open spec fn spec_rest_url(&self) -> Seq<char> {
        "https://www.traduora.example/api/v1/"@
    }

    fn rest_url(&self) -> (r: &str) {
        "https://www.traduora.example/api/v1/"
    }
}

impl Client for DummyClient {
    open spec fn spec_rest(&self, request: RequestV, result: Result<Response, ()>) -> bool {
        result matches Ok(rsp) && rsp.status == 200 && rsp.body@.len() == 0
    }

    fn rest(&self, request: Request) -> (r: Result<Response, ()>) {
        Ok(Response { status: 200, body: Vec::new() })
    }
}

} // verus!

verus! {

/// Two descriptors that describe the same operation (same method, path and
/// body), queried through a client that answers one request always alike,
/// end in the same outcome; a build or client error is the same error.
pub proof fn lemma_same_descriptor_same_result<E: DefaultModel, T: FromJson, C: Client>(
    a: &E,
    b: &E,
    client: &C,
    ra: Result<T, ApiError<C::Error>>,
    rb: Result<T, ApiError<C::Error>>,
)
    requires
        a.spec_method() == b.spec_method(),
        a.spec_path() == b.spec_path(),
        a.spec_body() == b.spec_body(),
        forall|q: RequestV, t1: Result<Response, C::Error>, t2: Result<Response, C::Error>|
            #[trigger] client.spec_rest(q, t1) && #[trigger] client.spec_rest(q, t2) ==> t1 == t2,
        query_spec(a, client, E::spec_envelope(), ra),
        query_spec(b, client, E::spec_envelope(), rb),
    ensures
        outcome(ra) == outcome(rb),
        ra matches Err(ApiError::Client { .. }) ==> ra == rb,
        ra matches Err(ApiError::Body { .. }) ==> ra == rb,
{
    assert(request_spec(a, client.spec_rest_url()) == request_spec(b, client.spec_rest_url()));
    match request_spec(a, client.spec_rest_url()) {
        Built::Request(req) => {
            let ta = choose|t: Result<Response, C::Error>|
                #[trigger] client.spec_rest(req, t) && match t {
                    Err(source) => ra == Err::<T, ApiError<C::Error>>(ApiError::Client { source }),
                    Ok(rsp) => outcome(ra) == response_outcome::<T>(rsp.status, rsp.body@, E::spec_envelope()),
                };
            let tb = choose|t: Result<Response, C::Error>|
                #[trigger] client.spec_rest(req, t) && match t {
                    Err(source) => rb == Err::<T, ApiError<C::Error>>(ApiError::Client { source }),
                    Ok(rsp) => outcome(rb) == response_outcome::<T>(rsp.status, rsp.body@, E::spec_envelope()),
                };
            assert(ta == tb);
        },
        _ => {},
    }
}

/// A client that answers the request of an enveloped endpoint with a success
/// response whose body reads as `{"data": v}` makes the default query end in
/// what `v` decodes to.
pub proof fn lemma_query_enveloped<E: DefaultModel, C: Client>(
    endpoint: &E,
    client: &C,
    req: RequestV,
    status: u16,
    body: Seq<u8>,
    v: JsonV,
    r: Result<E::Model, ApiError<C::Error>>,
)
    requires
        E::spec_envelope() == Envelope::Data,
        request_spec(endpoint, client.spec_rest_url()) == Built::Request(req),
        forall|t: Result<Response, C::Error>|
            #[trigger] client.spec_rest(req, t) ==> (t matches Ok(rsp) && rsp.status == status
                && rsp.body@ == body),
        is_success(status),
        body.len() > 0,
        parsed_json(body) == Some(JsonV::Object(seq![("data"@, v)])),
        query_spec(endpoint, client, E::spec_envelope(), r),
    ensures
        outcome(r) == match E::Model::spec_decode(v) {
            Some(x) => Outcome::Decoded(x),
            None => Outcome::<<E::Model as DeepView>::V>::DataType(E::Model::spec_model_name()),
        },
{
    crate::response::lemma_enveloped_response::<E::Model>(status, body, v);
}

} // verus!
