//! The request handlers' decision core.
//!
//! Each endpoint of the service is one request/response transaction: build
//! the backend call from the parsed input, let the transport perform it, and
//! shape whatever came back into a response. The building and the shaping
//! stand here with contracts; the transport performs the call and feeds the
//! outcome back in. Any backend failure is terminal for its request and
//! collapses to a single server error, never to a partial payload.

use vstd::prelude::*;
use std::sync::Arc;
use crate::json::index_receipt_body;
use crate::json::index_receipt_json;
use crate::models::Flight;
use crate::models::PopularRoute;
use crate::query::request_matches;
use crate::query::SearchQuery;
use crate::query::SearchRequest;

verus! {

/// Handle on the search backend, shared read-only by every request handler.
/// The network client it stands for belongs to the transport layer; the
/// handlers' decisions need no state of their own, so none is carried here.
#[derive(Clone)]
pub struct SearchService {}

/// Process-wide state handed to every request handler: one reference-counted
/// backend handle, created at startup and never mutated.
#[derive(Clone)]
pub struct AppState {
    pub search_service: Arc<SearchService>,
}

/// What the backend reported when a call failed. The message is logged by
/// the transport with the operation's context and never shown to the caller.
#[derive(Clone, Debug)]
pub struct BackendFailure {
    pub message: String,
}

/// What the backend returned for a search: the matching flights in rank
/// order, the total match count, the elapsed milliseconds, and optional
/// named aggregation buckets (key and rendered value).
#[derive(Clone, Debug)]
pub struct SearchEnvelope {
    pub flights: Vec<Flight>,
    pub total: u64,
    pub took: u64,
    pub aggregations: Option<Vec<(String, String)>>,
}

/// The body of a successful search response, shaped from the backend's
/// envelope.
#[derive(Clone, Debug)]
pub struct SearchResponse {
    pub flights: Vec<Flight>,
    pub total: u64,
    pub took: u64,
    pub aggregations: Option<Vec<(String, String)>>,
}

/// The one error status a handler ever answers with of its own accord.
#[derive(Clone, Copy, Debug, PartialEq, Eq, Structural)]
pub enum ErrorStatus {
    InternalServerError,
}

/// One fully-formed call for the backend to perform.
#[derive(Clone, Debug)]
pub enum BackendCall {
    Search(SearchRequest),
    Index(Vec<Flight>),
    Suggest(String),
    PopularRoutes,
}

impl ErrorStatus {
    /// The HTTP status code this error answers with.
    pub fn code(&self) -> (c: u16)
        ensures
            c == 500,
    {
        match self {
            ErrorStatus::InternalServerError => 500,
        }
    }
}

/// The exact body of the health report: a liveness payload naming the
/// service and its version. It mentions no backend state because it depends
/// on none.
pub open spec fn health_json() -> Seq<char> {
    "{\"status\":\"healthy\",\"service\":\"skyscout-search-engine\",\"version\":\"0.1.0\"}"@
}

/// Answers the liveness probe. The body is the fixed `health_json` payload:
/// it reports `healthy` whatever the backend is doing, since liveness of
/// this service does not hinge on the cluster behind it.
pub fn health_check() -> (s: String)
    ensures
        s@ == health_json(),
{
    "{\"status\":\"healthy\",\"service\":\"skyscout-search-engine\",\"version\":\"0.1.0\"}".to_owned()
}

/// The backend call that indexing a batch leads to: the submitted records,
/// verbatim.
pub open spec fn index_call_of(flights: Vec<Flight>) -> BackendCall {
    BackendCall::Index(flights)
}

/// The response shaped from a successful search envelope: records, match
/// count, timing and aggregations, all forwarded unchanged.
pub open spec fn response_of(env: SearchEnvelope) -> SearchResponse {
    SearchResponse {
        flights: env.flights,
        total: env.total,
        took: env.took,
        aggregations: env.aggregations,
    }
}

/// The prefix the suggest call runs on: the `q` parameter's text, with a
/// missing parameter meaning the empty prefix.
pub open spec fn suggest_prefix(q: Option<String>) -> Seq<char> {
    match q {
        None => Seq::empty(),
        Some(s) => s@,
    }
}

/// The search response owed for each backend outcome: the envelope forwarded
/// unchanged on success, the bare server error on failure.
pub open spec fn search_reply(outcome: Result<SearchEnvelope, BackendFailure>) -> Result<
    SearchResponse,
    ErrorStatus,
> {
    match outcome {
        Ok(env) => Ok(response_of(env)),
        Err(_) => Err(ErrorStatus::InternalServerError),
    }
}

/// The indexing response owed for each backend outcome: the receipt body
/// naming the accepted count on success, the bare server error on failure.
pub open spec fn index_reply(outcome: Result<u64, BackendFailure>) -> Result<
    Seq<char>,
    ErrorStatus,
> {
    match outcome {
        Ok(count) => Ok(index_receipt_json(count as nat)),
        Err(_) => Err(ErrorStatus::InternalServerError),
    }
}

/// The autocomplete response owed for each backend outcome: the suggestions
/// in backend order on success, the bare server error on failure.
pub open spec fn suggestions_reply(outcome: Result<Vec<String>, BackendFailure>) -> Result<
    Vec<String>,
    ErrorStatus,
> {
    match outcome {
        Ok(suggestions) => Ok(suggestions),
        Err(_) => Err(ErrorStatus::InternalServerError),
    }
}

/// The popular-routes response owed for each backend outcome: the route
/// records in backend order on success, the bare server error on failure.
pub open spec fn routes_reply(outcome: Result<Vec<PopularRoute>, BackendFailure>) -> Result<
    Vec<PopularRoute>,
    ErrorStatus,
> {
    match outcome {
        Ok(routes) => Ok(routes),
        Err(_) => Err(ErrorStatus::InternalServerError),
    }
}

/// Builds the backend search call for raw query parameters: every filter
/// forwarded exactly as it arrived, the airline list split into codes.
/// Missing optional fields never fail the call; they stay unconstrained.
pub fn plan_search(params: SearchQuery) -> (c: BackendCall)
    ensures
        c matches BackendCall::Search(r) && request_matches(params, r),
{
    BackendCall::Search(SearchRequest::from_query(params))
}

/// Shapes the outcome of the backend search call. Success surfaces the
/// envelope unchanged; any backend failure collapses to one server error,
/// with no partial payload.
pub fn search_flights(outcome: Result<SearchEnvelope, BackendFailure>) -> (r: Result<
    SearchResponse,
    ErrorStatus,
>)
    ensures
        r == search_reply(outcome),
{
    match outcome {
        Ok(env) => Ok(
            SearchResponse {
                flights: env.flights,
                total: env.total,
                took: env.took,
                aggregations: env.aggregations,
            },
        ),
        Err(_) => Err(ErrorStatus::InternalServerError),
    }
}

/// Builds the backend bulk-index call: the submitted records, forwarded
/// verbatim. The façade never edits a domain record.
pub fn plan_index(flights: Vec<Flight>) -> (c: BackendCall)
    ensures
        c == index_call_of(flights),
{
    BackendCall::Index(flights)
}

/// Shapes the outcome of the backend bulk-index call. Success answers with
/// the receipt body naming the accepted count; any backend failure collapses
/// to one server error, with no partial payload.
pub fn index_flights(outcome: Result<u64, BackendFailure>) -> (r: Result<String, ErrorStatus>)
    ensures
        r matches Ok(body) ==> index_reply(outcome) == Ok::<Seq<char>, ErrorStatus>(body@),
        r matches Err(s) ==> index_reply(outcome) == Err::<Seq<char>, ErrorStatus>(s),
{
    match outcome {
        Ok(count) => Ok(index_receipt_body(count)),
        Err(_) => Err(ErrorStatus::InternalServerError),
    }
}

/// Builds the backend suggest call for the optional `q` parameter; a missing
/// parameter asks for the empty prefix, exactly like an empty one.
pub fn plan_autocomplete(q: Option<String>) -> (c: BackendCall)
    ensures
        c matches BackendCall::Suggest(p) && p@ == suggest_prefix(q),
{
    match q {
        None => BackendCall::Suggest(String::new()),
        Some(s) => BackendCall::Suggest(s),
    }
}

/// Shapes the outcome of the backend suggest call: the suggestions in
/// backend order, or one server error with no partial payload.
pub fn autocomplete(outcome: Result<Vec<String>, BackendFailure>) -> (r: Result<
    Vec<String>,
    ErrorStatus,
>)
    ensures
        r == suggestions_reply(outcome),
{
    match outcome {
        Ok(suggestions) => Ok(suggestions),
        Err(_) => Err(ErrorStatus::InternalServerError),
    }
}

/// Shapes the outcome of the backend popular-routes aggregation: the route
/// records in backend order, or one server error with no partial payload.
pub fn popular_routes(outcome: Result<Vec<PopularRoute>, BackendFailure>) -> (r: Result<
    Vec<PopularRoute>,
    ErrorStatus,
>)
    ensures
        r == routes_reply(outcome),
{
    match outcome {
        Ok(routes) => Ok(routes),
        Err(_) => Err(ErrorStatus::InternalServerError),
    }
}

/// A backend failure, whichever operation it interrupted, is terminal for
/// its request: every operation answers it with the bare server error, never
/// with a partial or successful payload.
pub proof fn lemma_backend_failure_is_terminal(f: BackendFailure)
    ensures
        search_reply(Err(f)) == Err::<SearchResponse, ErrorStatus>(ErrorStatus::InternalServerError),
        index_reply(Err(f)) == Err::<Seq<char>, ErrorStatus>(ErrorStatus::InternalServerError),
        suggestions_reply(Err(f)) == Err::<Vec<String>, ErrorStatus>(
            ErrorStatus::InternalServerError,
        ),
        routes_reply(Err(f)) == Err::<Vec<PopularRoute>, ErrorStatus>(
            ErrorStatus::InternalServerError,
        ),
{
}

/// A missing `q` parameter and an explicitly empty one lead to the same
/// suggest call: autocomplete without `q` behaves as autocomplete with an
/// empty `q`.
pub proof fn lemma_missing_q_is_empty_q(empty: String)
    requires
        empty@ == Seq::<char>::empty(),
    ensures
        suggest_prefix(None) == suggest_prefix(Some(empty)),
{
}

/// Records travel through the façade unchanged, in both directions: a batch
/// handed to indexing reaches the backend verbatim, and the records a search
/// envelope carries are surfaced verbatim. A record indexed and then found
/// by a search therefore comes back field for field as it was submitted.
pub proof fn lemma_record_round_trip(batch: Vec<Flight>, env: SearchEnvelope)
    requires
        env.flights@ == batch@,
    ensures
        index_call_of(batch) matches BackendCall::Index(forwarded) && forwarded@ == batch@,
        response_of(env).flights@ == batch@,
{
}

} // verus!
