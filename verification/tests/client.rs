use druid_io::client::{
    body_of, delivered, encode, has_error, http_query, inspect, DruidClient,
    DruidClientError, Request,
};
use druid_io::json::Json;
use druid_io::query::response::{
    AggregatorDefinition, ColumnDefinition, DimValue, MinMaxTime, RawGroupByResponse, RawListResponse,
    RawMetadataResponse, RawScanResponse, SegmentMetadataResponse, TimeBoundaryResponse, TimestampSpec,
};
use druid_io::query::scan::{ResultFormat, Scan};
use druid_io::query::DataSource;
use druid_io::string_map::StringMap;
use druid_io::text::parse;

fn bad_json() -> serde_json::Error {
    serde_json::from_str::<serde_json::Value>("{").unwrap_err()
}

#[test]
fn url_names_the_broker() {
    let client = DruidClient::new(vec!["localhost:8082".to_string()]);
    assert_eq!(client.url(), "http://localhost:8082/druid/v2/?pretty");
    assert_eq!(client.url(), "http://localhost:8082/druid/v2/?pretty");
}

#[test]
fn urls_go_round_the_brokers() {
    let client = DruidClient::new(vec!["a:1".to_string(), "b:2".to_string(), "c:3".to_string()]);
    let urls: Vec<String> = (0..4).map(|_| client.url()).collect();
    assert_eq!(
        urls,
        vec![
            "http://a:1/druid/v2/?pretty",
            "http://b:2/druid/v2/?pretty",
            "http://c:3/druid/v2/?pretty",
            "http://a:1/druid/v2/?pretty",
        ]
    );
}

#[test]
fn each_request_takes_the_next_broker() {
    let client = DruidClient::new(vec!["a:1".to_string(), "b:2".to_string()]);
    let scan = Scan {
        data_source: DataSource::table("t"),
        intervals: vec![],
        result_format: ResultFormat::List,
        filter: None,
        columns: vec![],
        batch_size: 1,
        limit: None,
        ordering: None,
        context: StringMap::new(),
    };
    let first = client.scan_request(&scan).unwrap();
    let second = client.scan_request(&scan).unwrap();
    let third = client.scan_request(&scan).unwrap();
    assert_eq!(first.url, "http://a:1/druid/v2/?pretty");
    assert_eq!(second.url, "http://b:2/druid/v2/?pretty");
    assert_eq!(third.url, "http://a:1/druid/v2/?pretty");
    assert_eq!(first.body, second.body);
    assert_eq!(
        first.body,
        r#"{"queryType":"scan","dataSource":{"type":"table","name":"t"},"intervals":[],"resultFormat":"list","filter":null,"columns":[],"batchSize":1,"limit":null,"ordering":null,"context":{}}"#
    );
}

#[test]
fn request_carries_the_text_of_the_wire_form() {
    let client = DruidClient::new(vec!["h:1".to_string()]);
    let wire = Json::Object(vec![("queryType".to_string(), Json::text("x"))]);
    assert_eq!(
        client.request(&wire).unwrap(),
        Request { url: "http://h:1/druid/v2/?pretty".to_string(), body: r#"{"queryType":"x"}"#.to_string() }
    );
    assert_eq!(encode(&wire).unwrap(), r#"{"queryType":"x"}"#);
}

#[test]
fn body_of_keeps_the_text_or_the_error() {
    assert_eq!(body_of(Ok("{}".to_string())).unwrap(), "{}");
    assert!(matches!(body_of(Err(bad_json())), Err(DruidClientError::ParsingError { .. })));
}

#[test]
fn delivered_keeps_the_body_or_the_word_of_the_transport() {
    assert_eq!(delivered(Ok("[]".to_string())).unwrap(), "[]");
    match delivered(Err("connection refused".to_string())) {
        Err(DruidClientError::HttpConnection { detail }) => assert_eq!(detail, "connection refused"),
        other => panic!("{:?}", other),
    }
}

#[test]
fn has_error_looks_for_the_member_at_the_top() {
    assert!(has_error(&parse(r#"{"error": "some failure"}"#).unwrap()));
    assert!(has_error(&parse(r#"{"a": 1, "error": null}"#).unwrap()));
    assert!(!has_error(&parse(r#"{"errors": "x", "a": {"error": "y"}}"#).unwrap()));
    assert!(!has_error(&parse(r#"[{"error": "x"}]"#).unwrap()));
    assert!(!has_error(&parse(r#""error""#).unwrap()));
}

#[test]
fn inspect_judges_a_reply() {
    let body = r#"{"error": "some failure"}"#;
    match inspect(parse(body), body) {
        Err(DruidClientError::ServerError { response }) => assert_eq!(response, body),
        other => panic!("{:?}", other),
    }
    unreadable(inspect(Err(bad_json()), "{"), "{");
    assert_eq!(inspect(parse("[1]"), "[1]").unwrap(), parse("[1]").unwrap());
    assert_eq!(inspect(parse(r#"{"a":1}"#), "whatever").unwrap(), parse(r#"{"a":1}"#).unwrap());
}

#[test]
fn http_query_parses_and_judges() {
    unreadable(http_query("not json"), "not json");
    unreadable(http_query(""), "");
    match http_query(r#"{"error":"Unknown exception","errorMessage":"x","host":null}"#) {
        Err(DruidClientError::ServerError { response }) => {
            assert_eq!(response, r#"{"error":"Unknown exception","errorMessage":"x","host":null}"#)
        }
        other => panic!("{:?}", other),
    }
    assert_eq!(http_query("[]").unwrap(), Json::Array(vec![]));
}

fn server_error<T: std::fmt::Debug>(r: Result<T, DruidClientError>, body: &str) {
    match r {
        Err(DruidClientError::ServerError { response }) => assert_eq!(response, body),
        other => panic!("{:?}", other),
    }
}

fn not_json<T: std::fmt::Debug>(r: Result<T, DruidClientError>) {
    unreadable(r, "<html>");
}

fn unreadable<T: std::fmt::Debug>(r: Result<T, DruidClientError>, body: &str) {
    match r {
        Err(DruidClientError::ParsingResponseError { response }) => assert_eq!(response, body),
        other => panic!("{:?}", other),
    }
}

fn no_transport<T: std::fmt::Debug>(r: Result<T, DruidClientError>) {
    match r {
        Err(DruidClientError::HttpConnection { detail }) => assert_eq!(detail, "timed out"),
        other => panic!("{:?}", other),
    }
}

#[test]
fn an_error_reply_is_a_server_error_for_every_kind_of_query() {
    let body = r#"{"error": "some failure"}"#;
    let reply = || Ok(body.to_string());
    server_error(DruidClient::query_response(reply()), body);
    server_error(DruidClient::top_n_response(reply()), body);
    server_error(DruidClient::search_response(reply()), body);
    server_error(DruidClient::group_by_response(reply()), body);
    server_error(DruidClient::scan_response(reply()), body);
    server_error(DruidClient::time_boundary_response(reply()), body);
    server_error(DruidClient::segment_metadata_response(reply()), body);
    server_error(DruidClient::timeseries_response(reply()), body);
    server_error(DruidClient::datasource_metadata_response(reply()), body);
    server_error(DruidClient::top_n_rows(parse(body), body), body);
}

#[test]
fn an_error_member_wins_over_a_shape_that_would_read() {
    let body = r#"{"error": "x", "timestamp": "t", "result": []}"#;
    server_error(DruidClient::top_n_response(Ok(body.to_string())), body);
    assert!(RawListResponse::from_json(&parse(body).unwrap()).is_some());
}

#[test]
fn a_body_that_is_not_json_cannot_be_read_for_every_kind_of_query() {
    let reply = || Ok("<html>".to_string());
    not_json(DruidClient::query_response(reply()));
    not_json(DruidClient::top_n_response(reply()));
    not_json(DruidClient::search_response(reply()));
    not_json(DruidClient::group_by_response(reply()));
    not_json(DruidClient::scan_response(reply()));
    not_json(DruidClient::time_boundary_response(reply()));
    not_json(DruidClient::segment_metadata_response(reply()));
    not_json(DruidClient::timeseries_response(reply()));
    not_json(DruidClient::datasource_metadata_response(reply()));
    not_json(DruidClient::scan_rows(Err(bad_json()), "<html>"));
}

#[test]
fn a_reply_of_another_shape_is_a_response_parsing_error() {
    let body = r#"[{"unexpected": true}]"#;
    let reply = || Ok(body.to_string());
    unreadable(DruidClient::top_n_response(reply()), body);
    unreadable(DruidClient::search_response(reply()), body);
    unreadable(DruidClient::group_by_response(reply()), body);
    unreadable(DruidClient::scan_response(reply()), body);
    unreadable(DruidClient::time_boundary_response(reply()), body);
    unreadable(DruidClient::segment_metadata_response(reply()), body);
    unreadable(DruidClient::timeseries_response(reply()), body);
    unreadable(DruidClient::datasource_metadata_response(reply()), body);
    let object = r#"{"timestamp": "t", "result": []}"#;
    unreadable(DruidClient::top_n_response(Ok(object.to_string())), object);
    unreadable(DruidClient::query_response(Ok("3".to_string())), "3");
}

#[test]
fn a_failed_transport_is_a_connection_error_for_every_kind_of_query() {
    let reply = || Err("timed out".to_string());
    no_transport(DruidClient::query_response(reply()));
    no_transport(DruidClient::top_n_response(reply()));
    no_transport(DruidClient::search_response(reply()));
    no_transport(DruidClient::group_by_response(reply()));
    no_transport(DruidClient::scan_response(reply()));
    no_transport(DruidClient::time_boundary_response(reply()));
    no_transport(DruidClient::segment_metadata_response(reply()));
    no_transport(DruidClient::timeseries_response(reply()));
    no_transport(DruidClient::datasource_metadata_response(reply()));
}

#[test]
fn an_empty_answer_has_no_rows() {
    let reply = || Ok("[]".to_string());
    assert!(DruidClient::query_response(reply()).unwrap().is_empty());
    assert!(DruidClient::top_n_response(reply()).unwrap().is_empty());
    assert!(DruidClient::search_response(reply()).unwrap().is_empty());
    assert!(DruidClient::group_by_response(reply()).unwrap().is_empty());
    assert!(DruidClient::scan_response(reply()).unwrap().is_empty());
    assert!(DruidClient::time_boundary_response(reply()).unwrap().is_empty());
    assert!(DruidClient::segment_metadata_response(reply()).unwrap().is_empty());
    assert!(DruidClient::timeseries_response(reply()).unwrap().is_empty());
    assert!(DruidClient::datasource_metadata_response(reply()).unwrap().is_empty());
}

#[test]
fn as_items_hands_out_the_items() {
    assert_eq!(
        parse("[1, \"a\"]").unwrap().as_items(),
        Some(vec![Json::from_usize(1), Json::text("a")])
    );
    assert_eq!(parse("{}").unwrap().as_items(), None);
    assert_eq!(Json::Null.as_items(), None);
}

#[test]
fn segment_metadata_with_null_intervals_reads_as_none() {
    let body = r#"[{"id":"merged","intervals":null,"columns":{},"size":0,"numRows":0,"aggregators":null,"timestampSpec":{"column":"__time","format":"auto","missingValue":null},"queryGranularity":null,"rollup":null}]"#;
    let result = DruidClient::segment_metadata_response(Ok(body.to_string())).unwrap();
    assert_eq!(
        result,
        vec![SegmentMetadataResponse {
            id: "merged".to_string(),
            intervals: vec![],
            columns: vec![],
            query_granularity: None,
            rollup: None,
            size: Some(0),
            num_rows: Some(0),
            timestamp_spec: TimestampSpec {
                column: "__time".to_string(),
                format: "auto".to_string(),
                missing_value: None,
            },
            aggregators: vec![],
        }]
    );
}

#[test]
fn segment_metadata_members_that_are_not_there_read_as_none() {
    let body = r#"{"id":"s","columns":{},"timestampSpec":{"column":"c","format":"f"}}"#;
    let read = SegmentMetadataResponse::from_json(&parse(body).unwrap()).unwrap();
    assert!(read.intervals.is_empty());
    assert!(read.aggregators.is_empty());
    assert_eq!(read.size, None);
    assert_eq!(read.num_rows, None);
    assert_eq!(read.rollup, None);
    assert_eq!(read.timestamp_spec.missing_value, None);
}

#[test]
fn segment_metadata_reads_what_is_there() {
    let body = r#"{"id":"s","intervals":["a","b"],"columns":{"x":{"type":"STRING","hasMultipleValues":true,"size":7,"cardinality":2.5,"minValue":1,"maxValue":false,"errorMessage":"e"}},"queryGranularity":"day","rollup":true,"size":1,"numRows":2,"timestampSpec":{"column":"c","format":"f","missingValue":"m"},"aggregators":{"n":{"type":"longSum","name":"n","fieldName":"f","expression":null},"m":{"type":"count","name":"m","fieldName":"g","expression":"x + 1"}}}"#;
    let read = SegmentMetadataResponse::from_json(&parse(body).unwrap()).unwrap();
    let two_and_a_half = druid_io::query::Real::new(serde_json::Number::from_f64(2.5).unwrap()).unwrap();
    assert_eq!(
        read,
        SegmentMetadataResponse {
            id: "s".to_string(),
            intervals: vec!["a".to_string(), "b".to_string()],
            columns: vec![(
                "x".to_string(),
                ColumnDefinition {
                    column_type: "STRING".to_string(),
                    has_multiple_values: true,
                    size: 7,
                    cardinality: Some(druid_io::query::JsonNumber::Float(two_and_a_half)),
                    min_value: Some(druid_io::query::JsonAny::Integer(1)),
                    max_value: Some(druid_io::query::JsonAny::Boolean(false)),
                    error_message: Some("e".to_string()),
                },
            )],
            query_granularity: Some("day".to_string()),
            rollup: Some(true),
            size: Some(1),
            num_rows: Some(2),
            timestamp_spec: TimestampSpec {
                column: "c".to_string(),
                format: "f".to_string(),
                missing_value: Some("m".to_string()),
            },
            aggregators: vec![
                (
                    "n".to_string(),
                    AggregatorDefinition {
                        aggr_type: "longSum".to_string(),
                        name: "n".to_string(),
                        field_name: "f".to_string(),
                        expression: None,
                    },
                ),
                (
                    "m".to_string(),
                    AggregatorDefinition {
                        aggr_type: "count".to_string(),
                        name: "m".to_string(),
                        field_name: "g".to_string(),
                        expression: Some("x + 1".to_string()),
                    },
                ),
            ],
        }
    );
}

#[test]
fn segment_metadata_refuses_what_is_wrong() {
    let read = |text: &str| SegmentMetadataResponse::from_json(&parse(text).unwrap());
    assert_eq!(read(r#"{"columns":{},"timestampSpec":{"column":"c","format":"f"}}"#), None);
    assert_eq!(read(r#"{"id":"s","timestampSpec":{"column":"c","format":"f"}}"#), None);
    assert_eq!(read(r#"{"id":"s","columns":null,"timestampSpec":{"column":"c","format":"f"}}"#), None);
    assert_eq!(read(r#"{"id":"s","columns":{}}"#), None);
    assert_eq!(read(r#"{"id":"s","intervals":"a","columns":{},"timestampSpec":{"column":"c","format":"f"}}"#), None);
    assert_eq!(read(r#"{"id":"s","intervals":[1],"columns":{},"timestampSpec":{"column":"c","format":"f"}}"#), None);
    assert_eq!(read(r#"{"id":"s","columns":{"x":{}},"timestampSpec":{"column":"c","format":"f"}}"#), None);
    assert_eq!(read(r#"{"id":"s","columns":{},"aggregators":[],"timestampSpec":{"column":"c","format":"f"}}"#), None);
    assert_eq!(read(r#"{"id":"s","columns":{},"size":-1,"timestampSpec":{"column":"c","format":"f"}}"#), None);
    assert_eq!(read(r#"{"id":"s","columns":{},"rollup":"yes","timestampSpec":{"column":"c","format":"f"}}"#), None);
}

#[test]
fn envelopes_read_their_members() {
    let list = RawListResponse::from_json(&parse(r#"{"timestamp":"t","result":[1,2]}"#).unwrap()).unwrap();
    assert_eq!(list, RawListResponse { timestamp: "t".to_string(), result: vec![Json::from_usize(1), Json::from_usize(2)] });
    assert_eq!(RawListResponse::from_json(&parse(r#"{"timestamp":"t","result":{}}"#).unwrap()), None);
    assert_eq!(RawListResponse::from_json(&parse(r#"{"result":[]}"#).unwrap()), None);
    let single = RawMetadataResponse::from_json(&parse(r#"{"timestamp":"t","result":{"a":1}}"#).unwrap()).unwrap();
    assert_eq!(single.result, parse(r#"{"a":1}"#).unwrap());
    assert_eq!(RawMetadataResponse::from_json(&parse(r#"{"timestamp":"t"}"#).unwrap()), None);
    let row = RawGroupByResponse::from_json(&parse(r#"{"timestamp":"t","event":null}"#).unwrap()).unwrap();
    assert_eq!(row, RawGroupByResponse { timestamp: "t".to_string(), event: Json::Null });
    assert_eq!(RawGroupByResponse::from_json(&parse(r#"{"timestamp":1,"event":{}}"#).unwrap()), None);
    let scan = RawScanResponse::from_json(&parse(r#"{"segmentId":"s","columns":["a"],"events":[[1]]}"#).unwrap()).unwrap();
    assert_eq!(scan.events, vec![Json::Array(vec![Json::from_usize(1)])]);
    assert_eq!(RawScanResponse::from_json(&parse(r#"{"segmentId":"s","columns":"a","events":[]}"#).unwrap()), None);
    let bounds = TimeBoundaryResponse::from_json(&parse(r#"{"timestamp":"t","result":{"minTime":"a"}}"#).unwrap()).unwrap();
    assert_eq!(
        bounds,
        TimeBoundaryResponse {
            timestamp: "t".to_string(),
            result: MinMaxTime { max_time: None, min_time: Some("a".to_string()) },
        }
    );
    assert_eq!(TimeBoundaryResponse::from_json(&parse(r#"{"timestamp":"t","result":{"minTime":1}}"#).unwrap()), None);
    let value = DimValue::from_json(&parse(r#"{"dimension":"d","value":"v","count":3}"#).unwrap()).unwrap();
    assert_eq!(
        value,
        DimValue { dimension: "d".to_string(), value: druid_io::query::JsonAny::STRING("v".to_string()), count: 3 }
    );
    assert_eq!(DimValue::from_json(&parse(r#"{"dimension":"d","value":null,"count":3}"#).unwrap()), None);
}
