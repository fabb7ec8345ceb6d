//! The client's side of a call to the engine, without the network.
//!
//! A call goes in three steps. The client writes the query as JSON and
//! names the address to post it to ([`Request`]). Something else sends the
//! request and hands back what came: the body of the reply, or word that
//! the transport failed. The client then judges the reply: a body that is
//! not JSON or does not read as the answer to this kind of query is one
//! that could not be read; a body in which the engine reports an error is
//! the engine's failure; every other body gives the answer.
//!
//! The rows of an answer stay JSON values: the caller reads them in a type
//! of its own.

use crate::connection::{BrokersPool, SelectionStategy, StaticPool};
use crate::json::{Json, JsonModel};
use crate::query::group_by::GroupBy;
use crate::query::response::{
    DataSourceMetadataResponse, DataSourceMetadataResponseModel, RawGroupByResponse,
    RawGroupByResponseModel, RawListResponse, RawListResponseModel, RawMetadataResponse,
    RawMetadataResponseModel, RawScanResponse, RawScanResponseModel, SearchResponse,
    SearchResponseModel, SegmentMetadataResponse, SegmentMetadataResponseModel,
    TimeBoundaryResponse, TimeBoundaryResponseModel,
};
use crate::query::scan::Scan;
use crate::query::search::Search;
use crate::query::segment_metadata::SegmentMetadata;
use crate::query::time_boundary::TimeBoundary;
use crate::query::timeseries::Timeseries;
use crate::query::top_n::TopN;
use crate::query::{DataSource, DataSourceMetadata, Query};
use crate::string_map::StringMap;
use crate::text::{parse, parsed, render, rendered};
use vstd::prelude::*;
use vstd::string::StringExecFns;

verus! {

/// What can go wrong with a call.
#[derive(Debug)]
#[non_exhaustive]
pub enum DruidClientError {
    /// The request could not be sent, or the reply could not be received.
    HttpConnection { detail: String },
    /// The data for a key is not available.
    Redaction(String),
    /// A header of the reply is not the expected one.
    InvalidHeader { expected: String, found: String },
    /// The query could not be written as JSON.
    ParsingError { source: serde_json::Error },
    /// The reply is not JSON, or does not read as the answer to the query. The
    /// body of the reply is kept.
    ParsingResponseError { response: String },
    /// The engine reported an error. The body of the reply is kept.
    ServerError { response: String },
    /// Any other failure.
    Unknown,
}

/// The result of a step of a call.
pub type ClientResult<T> = Result<T, DruidClientError>;

/// What is to be sent: a POST of `body`, as `application/json`, to `url`.
#[derive(Debug, PartialEq)]
pub struct Request {
    pub url: String,
    pub body: String,
}

/// The address under which the broker `broker` takes queries.
pub open spec fn query_url(broker: Seq<char>) -> Seq<char> {
    "http://"@ + broker + "/druid/v2/?pretty"@
}

/// What the body of a request for a query with the wire form `wire` has to be:
/// the text that `serde_json` writes for it.
pub open spec fn body_for(wire: JsonModel) -> Option<Seq<char>> {
    rendered(wire.merged())
}

/// What was read of a text, as a tree.
pub open spec fn parsed_view(parsed: Result<Json, serde_json::Error>) -> Option<JsonModel> {
    match parsed {
        Ok(j) => Some(j@),
        Err(_) => None,
    }
}

/// Whether the engine reports an error in a reply: the reply is an object with
/// a member `error`.
pub open spec fn reports_error(reply: JsonModel) -> bool {
    reply.field("error"@) is Some
}

/// Whether `r` is the judgement of a reply with the body `response`, of which
/// `parsed` was read, before its rows are looked at: a body that is not JSON
/// is a `ParsingResponseError` that carries the body, a reply in which the
/// engine reports an error is a `ServerError` that carries the body, and any
/// other reply is handed on.
pub open spec fn judged(
    r: ClientResult<Json>,
    parsed: Option<JsonModel>,
    response: Seq<char>,
) -> bool {
    match parsed {
        None => r matches Err(DruidClientError::ParsingResponseError { response: kept }) && kept@
            == response,
        Some(reply) => if reports_error(reply) {
            r matches Err(DruidClientError::ServerError { response: kept }) && kept@ == response
        } else {
            r matches Ok(j) && j@ == reply
        },
    }
}

/// Whether `r` is the answer to a query, from a reply with the body `response`
/// of which `parsed` was read, where `rows` says what a reply reads as: a
/// reply in which the engine reports an error gives a `ServerError` that
/// carries the body, whatever else the reply holds; a body that is not JSON,
/// and a reply that does not read as the answer, give a `ParsingResponseError`
/// that carries the body; and any other reply gives the rows that it reads as.
pub open spec fn answers<R>(
    r: Result<R, DruidClientError>,
    parsed: Option<JsonModel>,
    response: Seq<char>,
    rows: spec_fn(JsonModel) -> Option<R>,
) -> bool {
    match parsed {
        None => r matches Err(DruidClientError::ParsingResponseError { response: kept }) && kept@
            == response,
        Some(reply) => if reports_error(reply) {
            r matches Err(DruidClientError::ServerError { response: kept }) && kept@ == response
        } else {
            match rows(reply) {
                Some(read) => r matches Ok(given) && given == read,
                None => r matches Err(DruidClientError::ParsingResponseError { response: kept })
                    && kept@ == response,
            }
        },
    }
}

/// Whether `r` is the answer to a query, from what the transport handed back:
/// an `HttpConnection` error with the word of the transport where it failed,
/// and else what `answers` asks for the body and for what `serde_json` reads
/// in it.
pub open spec fn responds<R>(
    r: Result<R, DruidClientError>,
    reply: Result<String, String>,
    rows: spec_fn(JsonModel) -> Option<R>,
) -> bool {
    match reply {
        Err(detail) => r matches Err(DruidClientError::HttpConnection { detail: kept }) && kept
            == detail,
        Ok(body) => answers(r, parsed(body@), body@, rows),
    }
}

/// The body of a request, from what `serde_json` made of the query: the text,
/// or a `ParsingError` with the error of `serde_json`.
pub fn body_of(written: Result<String, serde_json::Error>) -> (r: ClientResult<String>)
    ensures
        match written {
            Ok(text) => r == Ok::<String, DruidClientError>(text),
            Err(source) => r matches Err(DruidClientError::ParsingError { source: kept }) && kept
                == source,
        },
{
    match written {
        Ok(text) => Ok(text),
        Err(source) => Err(DruidClientError::ParsingError { source }),
    }
}

/// Writes the wire form of a query as the body of a request.
pub fn encode(wire: &Json) -> (r: ClientResult<String>)
    ensures
        match r {
            Ok(text) => body_for(wire@) == Some(text@),
            Err(e) => e is ParsingError && body_for(wire@) is None,
        },
{
    body_of(render(wire))
}

/// Whether the engine reports an error in a reply.
pub fn has_error(reply: &Json) -> (b: bool)
    ensures
        b == reports_error(reply@),
{
    reply.get("error").is_some()
}

/// Judges a reply with the body `response`, of which `parsed` was read, before
/// its rows are looked at.
pub fn inspect(parsed: Result<Json, serde_json::Error>, response: &str) -> (r: ClientResult<Json>)
    ensures
        judged(r, parsed_view(parsed), response@),
{
    match parsed {
        Err(_) => Err(DruidClientError::ParsingResponseError { response: response.to_owned() }),
        Ok(reply) => {
            if has_error(&reply) {
                Err(DruidClientError::ServerError { response: response.to_owned() })
            } else {
                Ok(reply)
            }
        },
    }
}

/// Reads the body of a reply as JSON and judges it before its rows are looked
/// at.
pub fn http_query(response: &str) -> (r: ClientResult<Json>)
    ensures
        judged(r, parsed(response@), response@),
{
    inspect(parse(response), response)
}

/// What the transport handed back, as a step of the call: the body of the
/// reply, or an `HttpConnection` error with the word of the transport.
pub fn delivered(reply: Result<String, String>) -> (r: ClientResult<String>)
    ensures
        match reply {
            Ok(body) => r == Ok::<String, DruidClientError>(body),
            Err(detail) => r matches Err(DruidClientError::HttpConnection { detail: kept }) && kept
                == detail,
        },
{
    match reply {
        Ok(body) => Ok(body),
        Err(detail) => Err(DruidClientError::HttpConnection { detail }),
    }
}

/// The client: the brokers of a cluster and the way one of them is picked for
/// each request.
pub struct DruidClient {
    brokers_pool: StaticPool,
}

impl DruidClient {
    /// The brokers of the cluster, in order.
    pub closed spec fn nodes(self) -> Seq<String> {
        self.brokers_pool.brokers()
    }

    /// Whether every request goes to the first broker.
    pub closed spec fn is_constant(self) -> bool {
        self.brokers_pool.is_constant()
    }

    /// Whether `url` is the address of one of the brokers: of the first where
    /// every request goes there.
    pub open spec fn addresses(self, url: Seq<char>) -> bool {
        &&& exists|i: int|
            0 <= i < self.nodes().len() && url == query_url(#[trigger] self.nodes()[i]@)
        &&& self.is_constant() ==> url == query_url(self.nodes()[0]@)
    }

    /// Whether `r` is the request for a query with the wire form `wire`: a
    /// request to one of the brokers whose body is the JSON text of the query,
    /// or a `ParsingError` where `serde_json` writes no text for it.
    pub open spec fn requests(self, r: ClientResult<Request>, wire: JsonModel) -> bool {
        match r {
            Ok(request) => self.addresses(request.url@) && body_for(wire) == Some(request.body@),
            Err(e) => e is ParsingError && body_for(wire) is None,
        }
    }

    /// A client for the brokers `nodes`, given as `host:port`. One broker is
    /// always asked; of several, one after the other.
    pub fn new(nodes: Vec<String>) -> (c: DruidClient)
        requires
            nodes@.len() > 0,
        ensures
            c.nodes() == nodes@,
            c.is_constant() == (nodes@.len() == 1),
    {
        let strategy = SelectionStategy::default_for(&nodes);
        DruidClient { brokers_pool: StaticPool::new(nodes, strategy) }
    }

    /// The address to post the next query to.
    pub fn url(&self) -> (u: String)
        ensures
            self.addresses(u@),
    {
        let broker = self.brokers_pool.broker();
        let u = String::from_str("http://").concat(broker.as_str()).concat("/druid/v2/?pretty");
        proof {
            let i = choose|i: int|
                0 <= i < self.brokers_pool.brokers().len() && *broker
                    == self.brokers_pool.brokers()[i];
            assert(u@ == query_url(self.nodes()[i]@));
        }
        u
    }

    /// The request for a query that has the wire form `wire`.
    pub fn request(&self, wire: &Json) -> (r: ClientResult<Request>)
        ensures
            self.requests(r, wire@),
    {
        match encode(wire) {
            Ok(body) => Ok(Request { url: self.url(), body }),
            Err(e) => Err(e),
        }
    }

    /// The request for a query of any kind.
    pub fn query_request(&self, query: &Query) -> (r: ClientResult<Request>)
        ensures
            self.requests(r, query@.wire()),
    {
        self.request(&query.to_json())
    }

    /// The answer to a query of any kind, from a reply with the body
    /// `response` of which `parsed` was read.
    pub fn query_rows(
        parsed: Result<Json, serde_json::Error>,
        response: &str,
    ) -> (r: ClientResult<Vec<Json>>)
        ensures
            answers(
                Self::query_seen(r),
                parsed_view(parsed),
                response@,
                |reply: JsonModel| reply.as_items(),
            ),
    {
        match inspect(parsed, response) {
            Ok(reply) => match reply.as_items() {
                Some(rows) => Ok(rows),
                None => Err(
                    DruidClientError::ParsingResponseError { response: response.to_owned() },
                ),
            },
            Err(e) => Err(e),
        }
    }

    /// The answer to a query of any kind, from what the transport handed back.
    pub fn query_response(
        reply: Result<String, String>,
    ) -> (r: ClientResult<Vec<Json>>)
        ensures
            responds(Self::query_seen(r), reply, |reply: JsonModel| reply.as_items()),
    {
        match delivered(reply) {
            Ok(body) => Self::query_rows(parse(body.as_str()), body.as_str()),
            Err(e) => Err(e),
        }
    }

    /// The answer to a query of any kind with its rows as their models.
    pub open spec fn query_seen(
        r: ClientResult<Vec<Json>>,
    ) -> Result<Seq<JsonModel>, DruidClientError> {
        match r {
            Ok(v) => Ok(Json::models(v@)),
            Err(e) => Err(e),
        }
    }

    /// The request for a topN query.
    pub fn top_n_request(&self, query: &TopN) -> (r: ClientResult<Request>)
        ensures
            self.requests(r, query@.wire()),
    {
        self.request(&query.to_json())
    }

    /// The answer to a topN query, from a reply with the body `response` of
    /// which `parsed` was read.
    pub fn top_n_rows(
        parsed: Result<Json, serde_json::Error>,
        response: &str,
    ) -> (r: ClientResult<Vec<RawListResponse>>)
        ensures
            answers(
                Self::top_n_seen(r),
                parsed_view(parsed),
                response@,
                |reply: JsonModel| RawListResponseModel::parse_list(reply),
            ),
    {
        match inspect(parsed, response) {
            Ok(reply) => match RawListResponse::list_from_json(&reply) {
                Some(rows) => Ok(rows),
                None => Err(
                    DruidClientError::ParsingResponseError { response: response.to_owned() },
                ),
            },
            Err(e) => Err(e),
        }
    }

    /// The answer to a topN query, from what the transport handed back.
    pub fn top_n_response(
        reply: Result<String, String>,
    ) -> (r: ClientResult<Vec<RawListResponse>>)
        ensures
            responds(
                Self::top_n_seen(r),
                reply,
                |reply: JsonModel| RawListResponseModel::parse_list(reply),
            ),
    {
        match delivered(reply) {
            Ok(body) => Self::top_n_rows(parse(body.as_str()), body.as_str()),
            Err(e) => Err(e),
        }
    }

    /// The answer to a topN query with its rows as their models.
    pub open spec fn top_n_seen(
        r: ClientResult<Vec<RawListResponse>>,
    ) -> Result<Seq<RawListResponseModel>, DruidClientError> {
        match r {
            Ok(v) => Ok(RawListResponse::models(v@)),
            Err(e) => Err(e),
        }
    }

    /// The request for a search query.
    pub fn search_request(&self, query: &Search) -> (r: ClientResult<Request>)
        ensures
            self.requests(r, query@.wire()),
    {
        self.request(&query.to_json())
    }

    /// The answer to a search query, from a reply with the body `response` of
    /// which `parsed` was read.
    pub fn search_rows(
        parsed: Result<Json, serde_json::Error>,
        response: &str,
    ) -> (r: ClientResult<Vec<SearchResponse>>)
        ensures
            answers(
                Self::search_seen(r),
                parsed_view(parsed),
                response@,
                |reply: JsonModel| SearchResponseModel::parse_list(reply),
            ),
    {
        match inspect(parsed, response) {
            Ok(reply) => match SearchResponse::list_from_json(&reply) {
                Some(rows) => Ok(rows),
                None => Err(
                    DruidClientError::ParsingResponseError { response: response.to_owned() },
                ),
            },
            Err(e) => Err(e),
        }
    }

    /// The answer to a search query, from what the transport handed back.
    pub fn search_response(
        reply: Result<String, String>,
    ) -> (r: ClientResult<Vec<SearchResponse>>)
        ensures
            responds(
                Self::search_seen(r),
                reply,
                |reply: JsonModel| SearchResponseModel::parse_list(reply),
            ),
    {
        match delivered(reply) {
            Ok(body) => Self::search_rows(parse(body.as_str()), body.as_str()),
            Err(e) => Err(e),
        }
    }

    /// The answer to a search query with its rows as their models.
    pub open spec fn search_seen(
        r: ClientResult<Vec<SearchResponse>>,
    ) -> Result<Seq<SearchResponseModel>, DruidClientError> {
        match r {
            Ok(v) => Ok(SearchResponse::models(v@)),
            Err(e) => Err(e),
        }
    }

    /// The request for a groupBy query.
    pub fn group_by_request(&self, query: &GroupBy) -> (r: ClientResult<Request>)
        ensures
            self.requests(r, query@.wire()),
    {
        self.request(&query.to_json())
    }

    /// The answer to a groupBy query, from a reply with the body `response` of
    /// which `parsed` was read.
    pub fn group_by_rows(
        parsed: Result<Json, serde_json::Error>,
        response: &str,
    ) -> (r: ClientResult<Vec<RawGroupByResponse>>)
        ensures
            answers(
                Self::group_by_seen(r),
                parsed_view(parsed),
                response@,
                |reply: JsonModel| RawGroupByResponseModel::parse_list(reply),
            ),
    {
        match inspect(parsed, response) {
            Ok(reply) => match RawGroupByResponse::list_from_json(&reply) {
                Some(rows) => Ok(rows),
                None => Err(
                    DruidClientError::ParsingResponseError { response: response.to_owned() },
                ),
            },
            Err(e) => Err(e),
        }
    }

    /// The answer to a groupBy query, from what the transport handed back.
    pub fn group_by_response(
        reply: Result<String, String>,
    ) -> (r: ClientResult<Vec<RawGroupByResponse>>)
        ensures
            responds(
                Self::group_by_seen(r),
                reply,
                |reply: JsonModel| RawGroupByResponseModel::parse_list(reply),
            ),
    {
        match delivered(reply) {
            Ok(body) => Self::group_by_rows(parse(body.as_str()), body.as_str()),
            Err(e) => Err(e),
        }
    }

    /// The answer to a groupBy query with its rows as their models.
    pub open spec fn group_by_seen(
        r: ClientResult<Vec<RawGroupByResponse>>,
    ) -> Result<Seq<RawGroupByResponseModel>, DruidClientError> {
        match r {
            Ok(v) => Ok(RawGroupByResponse::models(v@)),
            Err(e) => Err(e),
        }
    }

    /// The request for a scan query.
    pub fn scan_request(&self, query: &Scan) -> (r: ClientResult<Request>)
        ensures
            self.requests(r, query@.wire()),
    {
        self.request(&query.to_json())
    }

    /// The answer to a scan query, from a reply with the body `response` of
    /// which `parsed` was read.
    pub fn scan_rows(
        parsed: Result<Json, serde_json::Error>,
        response: &str,
    ) -> (r: ClientResult<Vec<RawScanResponse>>)
        ensures
            answers(
                Self::scan_seen(r),
                parsed_view(parsed),
                response@,
                |reply: JsonModel| RawScanResponseModel::parse_list(reply),
            ),
    {
        match inspect(parsed, response) {
            Ok(reply) => match RawScanResponse::list_from_json(&reply) {
                Some(rows) => Ok(rows),
                None => Err(
                    DruidClientError::ParsingResponseError { response: response.to_owned() },
                ),
            },
            Err(e) => Err(e),
        }
    }

    /// The answer to a scan query, from what the transport handed back.
    pub fn scan_response(
        reply: Result<String, String>,
    ) -> (r: ClientResult<Vec<RawScanResponse>>)
        ensures
            responds(
                Self::scan_seen(r),
                reply,
                |reply: JsonModel| RawScanResponseModel::parse_list(reply),
            ),
    {
        match delivered(reply) {
            Ok(body) => Self::scan_rows(parse(body.as_str()), body.as_str()),
            Err(e) => Err(e),
        }
    }

    /// The answer to a scan query with its rows as their models.
    pub open spec fn scan_seen(
        r: ClientResult<Vec<RawScanResponse>>,
    ) -> Result<Seq<RawScanResponseModel>, DruidClientError> {
        match r {
            Ok(v) => Ok(RawScanResponse::models(v@)),
            Err(e) => Err(e),
        }
    }

    /// The request for a timeBoundary query.
    pub fn time_boundary_request(&self, query: &TimeBoundary) -> (r: ClientResult<Request>)
        ensures
            self.requests(r, query@.wire()),
    {
        self.request(&query.to_json())
    }

    /// The answer to a timeBoundary query, from a reply with the body
    /// `response` of which `parsed` was read.
    pub fn time_boundary_rows(
        parsed: Result<Json, serde_json::Error>,
        response: &str,
    ) -> (r: ClientResult<Vec<TimeBoundaryResponse>>)
        ensures
            answers(
                Self::time_boundary_seen(r),
                parsed_view(parsed),
                response@,
                |reply: JsonModel| TimeBoundaryResponseModel::parse_list(reply),
            ),
    {
        match inspect(parsed, response) {
            Ok(reply) => match TimeBoundaryResponse::list_from_json(&reply) {
                Some(rows) => Ok(rows),
                None => Err(
                    DruidClientError::ParsingResponseError { response: response.to_owned() },
                ),
            },
            Err(e) => Err(e),
        }
    }

    /// The answer to a timeBoundary query, from what the transport handed
    /// back.
    pub fn time_boundary_response(
        reply: Result<String, String>,
    ) -> (r: ClientResult<Vec<TimeBoundaryResponse>>)
        ensures
            responds(
                Self::time_boundary_seen(r),
                reply,
                |reply: JsonModel| TimeBoundaryResponseModel::parse_list(reply),
            ),
    {
        match delivered(reply) {
            Ok(body) => Self::time_boundary_rows(parse(body.as_str()), body.as_str()),
            Err(e) => Err(e),
        }
    }

    /// The answer to a timeBoundary query with its rows as their models.
    pub open spec fn time_boundary_seen(
        r: ClientResult<Vec<TimeBoundaryResponse>>,
    ) -> Result<Seq<TimeBoundaryResponseModel>, DruidClientError> {
        match r {
            Ok(v) => Ok(TimeBoundaryResponse::models(v@)),
            Err(e) => Err(e),
        }
    }

    /// The request for a segmentMetadata query.
    pub fn segment_metadata_request(&self, query: &SegmentMetadata) -> (r: ClientResult<Request>)
        ensures
            self.requests(r, query@.wire()),
    {
        self.request(&query.to_json())
    }

    /// The answer to a segmentMetadata query, from a reply with the body
    /// `response` of which `parsed` was read.
    pub fn segment_metadata_rows(
        parsed: Result<Json, serde_json::Error>,
        response: &str,
    ) -> (r: ClientResult<Vec<SegmentMetadataResponse>>)
        ensures
            answers(
                Self::segment_metadata_seen(r),
                parsed_view(parsed),
                response@,
                |reply: JsonModel| SegmentMetadataResponseModel::parse_list(reply),
            ),
    {
        match inspect(parsed, response) {
            Ok(reply) => match SegmentMetadataResponse::list_from_json(&reply) {
                Some(rows) => Ok(rows),
                None => Err(
                    DruidClientError::ParsingResponseError { response: response.to_owned() },
                ),
            },
            Err(e) => Err(e),
        }
    }

    /// The answer to a segmentMetadata query, from what the transport handed
    /// back.
    pub fn segment_metadata_response(
        reply: Result<String, String>,
    ) -> (r: ClientResult<Vec<SegmentMetadataResponse>>)
        ensures
            responds(
                Self::segment_metadata_seen(r),
                reply,
                |reply: JsonModel| SegmentMetadataResponseModel::parse_list(reply),
            ),
    {
        match delivered(reply) {
            Ok(body) => Self::segment_metadata_rows(parse(body.as_str()), body.as_str()),
            Err(e) => Err(e),
        }
    }

    /// The answer to a segmentMetadata query with its rows as their models.
    pub open spec fn segment_metadata_seen(
        r: ClientResult<Vec<SegmentMetadataResponse>>,
    ) -> Result<Seq<SegmentMetadataResponseModel>, DruidClientError> {
        match r {
            Ok(v) => Ok(SegmentMetadataResponse::models(v@)),
            Err(e) => Err(e),
        }
    }

    /// The request for a timeseries query.
    pub fn timeseries_request(&self, query: &Timeseries) -> (r: ClientResult<Request>)
        ensures
            self.requests(r, query@.wire()),
    {
        self.request(&query.to_json())
    }

    /// The answer to a timeseries query, from a reply with the body `response`
    /// of which `parsed` was read.
    pub fn timeseries_rows(
        parsed: Result<Json, serde_json::Error>,
        response: &str,
    ) -> (r: ClientResult<Vec<RawMetadataResponse>>)
        ensures
            answers(
                Self::timeseries_seen(r),
                parsed_view(parsed),
                response@,
                |reply: JsonModel| RawMetadataResponseModel::parse_list(reply),
            ),
    {
        match inspect(parsed, response) {
            Ok(reply) => match RawMetadataResponse::list_from_json(&reply) {
                Some(rows) => Ok(rows),
                None => Err(
                    DruidClientError::ParsingResponseError { response: response.to_owned() },
                ),
            },
            Err(e) => Err(e),
        }
    }

    /// The answer to a timeseries query, from what the transport handed back.
    pub fn timeseries_response(
        reply: Result<String, String>,
    ) -> (r: ClientResult<Vec<RawMetadataResponse>>)
        ensures
            responds(
                Self::timeseries_seen(r),
                reply,
                |reply: JsonModel| RawMetadataResponseModel::parse_list(reply),
            ),
    {
        match delivered(reply) {
            Ok(body) => Self::timeseries_rows(parse(body.as_str()), body.as_str()),
            Err(e) => Err(e),
        }
    }

    /// The answer to a timeseries query with its rows as their models.
    pub open spec fn timeseries_seen(
        r: ClientResult<Vec<RawMetadataResponse>>,
    ) -> Result<Seq<RawMetadataResponseModel>, DruidClientError> {
        match r {
            Ok(v) => Ok(RawMetadataResponse::models(v@)),
            Err(e) => Err(e),
        }
    }

    /// The query for what the engine knows of `data_source`, with an empty
    /// context.
    pub fn datasource_metadata_query(data_source: DataSource) -> (q: DataSourceMetadata)
        ensures
            q.data_source == data_source,
            q.context@.entries == Seq::<(Seq<char>, Seq<char>)>::empty(),
    {
        DataSourceMetadata { data_source, context: StringMap::new() }
    }

    /// The request for what the engine knows of `data_source`.
    pub fn datasource_metadata_request(
        &self,
        data_source: DataSource,
    ) -> (r: ClientResult<Request>)
        ensures
            exists|q: DataSourceMetadata|
                q.data_source == data_source && q.context@.entries == Seq::<
                    (Seq<char>, Seq<char>),
                >::empty() && #[trigger] self.requests(r, q@.wire()),
    {
        let query = Self::datasource_metadata_query(data_source);
        let r = self.request(&query.to_json());
        assert(self.requests(r, query@.wire()));
        r
    }
    /// The answer to a dataSourceMetadata query, from a reply with the body
    /// `response` of which `parsed` was read.
    pub fn datasource_metadata_rows(
        parsed: Result<Json, serde_json::Error>,
        response: &str,
    ) -> (r: ClientResult<Vec<DataSourceMetadataResponse>>)
        ensures
            answers(
                Self::datasource_metadata_seen(r),
                parsed_view(parsed),
                response@,
                |reply: JsonModel| DataSourceMetadataResponseModel::parse_list(reply),
            ),
    {
        match inspect(parsed, response) {
            Ok(reply) => match DataSourceMetadataResponse::list_from_json(&reply) {
                Some(rows) => Ok(rows),
                None => Err(
                    DruidClientError::ParsingResponseError { response: response.to_owned() },
                ),
            },
            Err(e) => Err(e),
        }
    }

    /// The answer to a dataSourceMetadata query, from what the transport
    /// handed back.
    pub fn datasource_metadata_response(
        reply: Result<String, String>,
    ) -> (r: ClientResult<Vec<DataSourceMetadataResponse>>)
        ensures
            responds(
                Self::datasource_metadata_seen(r),
                reply,
                |reply: JsonModel| DataSourceMetadataResponseModel::parse_list(reply),
            ),
    {
        match delivered(reply) {
            Ok(body) => Self::datasource_metadata_rows(parse(body.as_str()), body.as_str()),
            Err(e) => Err(e),
        }
    }

    /// The answer to a dataSourceMetadata query with its rows as their models.
    pub open spec fn datasource_metadata_seen(
        r: ClientResult<Vec<DataSourceMetadataResponse>>,
    ) -> Result<Seq<DataSourceMetadataResponseModel>, DruidClientError> {
        match r {
            Ok(v) => Ok(DataSourceMetadataResponse::models(v@)),
            Err(e) => Err(e),
        }
    }
}

} // verus!
