use druid_io::client::{DruidClient, DruidClientError};
use druid_io::json::Json;
use druid_io::query::definitions::{
    Aggregation, Dimension, Direction, Filter, Granularity, OutputType, SortingOrder,
};
use druid_io::query::group_by::{
    GroupBy, GroupByBuilder, HavingSpec, LimitSpec, OrderByColumnSpec, PostAggregation,
    PostAggregator,
};
use druid_io::query::scan::{ResultFormat, Scan};
use druid_io::query::search::{Search, SearchQuerySpec};
use druid_io::query::segment_metadata::{AnalysisType, SegmentMetadata, ToInclude};
use druid_io::query::time_boundary::{TimeBoundType, TimeBoundary};
use druid_io::query::timeseries::Timeseries;
use druid_io::query::top_n::TopN;
use druid_io::query::{DataSource, JoinType, JsonAny, JsonNumber, Query, Real};
use druid_io::string_map::StringMap;
use druid_io::text::{parse, render};

const INTERVAL: &str = "-146136543-09-08T08:23:32.096Z/146140482-04-24T15:36:27.903Z";
const URL: &str = "http://localhost:8082/druid/v2/?pretty";

fn float(x: f64) -> Real {
    Real::new(serde_json::Number::from_f64(x).unwrap()).unwrap()
}

fn wiki_aggregations() -> Vec<Aggregation> {
    vec![
        Aggregation::count("count"),
        Aggregation::StringFirst {
            name: "user".into(),
            field_name: "user".into(),
            max_string_bytes: 1024,
        },
    ]
}

fn top_n() -> TopN {
    let mut context = StringMap::new();
    context.insert("resultAsArray".to_string(), "true".to_string());
    TopN {
        data_source: DataSource::table("wikipedia"),
        dimension: Dimension::default("page"),
        threshold: 10,
        metric: "count".into(),
        aggregations: wiki_aggregations(),
        intervals: vec![INTERVAL.into()],
        granularity: Granularity::All,
        context,
    }
}

#[test]
fn test_top_n_query() {
    let top_n = top_n();
    let druid_client = DruidClient::new(vec!["localhost:8082".to_string()]);
    let request = druid_client.top_n_request(&top_n).unwrap();
    assert_eq!(request.url, URL);
    assert_eq!(
        request.body,
        r#"{"queryType":"topN","dataSource":{"type":"table","name":"wikipedia"},"dimension":{"type":"default","dimension":"page","outputName":"page","outputType":"STRING"},"threshold":10,"metric":"count","aggregations":[{"type":"count","name":"count"},{"type":"stringFirst","name":"user","fieldName":"user","maxStringBytes":1024}],"intervals":["-146136543-09-08T08:23:32.096Z/146140482-04-24T15:36:27.903Z"],"granularity":"all","context":{"resultAsArray":"true"}}"#
    );
    let reply = r#"[{"timestamp":"2015-09-12T00:46:58.771Z","result":[{"page":"Main","user":null,"count":12},{"page":"Talk","user":"Taffe316","count":3}]}]"#;
    let result = DruidClient::top_n_response(Ok(reply.to_string())).unwrap();
    assert_eq!(result.len(), 1);
    assert_eq!(result[0].timestamp, "2015-09-12T00:46:58.771Z");
    assert_eq!(result[0].result.len(), 2);
    assert_eq!(result[0].result[0].text_field("page"), Some("Main".to_string()));
    assert_eq!(result[0].result[0].optional_text_field("user"), Some(None));
    assert_eq!(result[0].result[1].usize_field("count"), Some(3));
}

#[test]
fn top_n_example_has_the_documented_members() {
    let top_n = TopN {
        data_source: DataSource::table("wikipedia"),
        dimension: Dimension::default("page"),
        threshold: 10,
        metric: "count".into(),
        aggregations: vec![Aggregation::count("count")],
        intervals: vec![],
        granularity: Granularity::All,
        context: StringMap::new(),
    };
    let wire = top_n.to_json();
    assert_eq!(wire.get("queryType"), Some(&Json::text("topN")));
    assert_eq!(wire.get("threshold"), Some(&Json::from_usize(10)));
    assert_eq!(
        render(wire.get("dataSource").unwrap()).unwrap(),
        r#"{"type":"table","name":"wikipedia"}"#
    );
    let reread = parse(&render(&wire).unwrap()).unwrap();
    assert_eq!(reread.text_field("queryType"), Some("topN".to_string()));
    assert_eq!(reread.usize_field("threshold"), Some(10));
    assert_eq!(reread.get("dataSource").unwrap().text_field("type"), Some("table".to_string()));
    assert_eq!(reread.get("dataSource").unwrap().text_field("name"), Some("wikipedia".to_string()));
}

fn inner_scan() -> Scan {
    Scan {
        data_source: DataSource::table("countries"),
        batch_size: 10,
        intervals: vec![INTERVAL.into()],
        result_format: ResultFormat::List,
        columns: vec!["Name".into(), "languages".into()],
        limit: None,
        filter: None,
        ordering: Some(Direction::Unordered),
        context: StringMap::new(),
    }
}

fn scan_join() -> Scan {
    Scan {
        data_source: DataSource::join(JoinType::Inner)
            .left(DataSource::table("wikipedia"))
            .right(DataSource::query(inner_scan().into()), "c.")
            .condition("countryName == \"c.Name\"")
            .build()
            .unwrap(),
        batch_size: 10,
        intervals: vec![INTERVAL.into()],
        result_format: ResultFormat::List,
        columns: vec![],
        limit: Some(10),
        filter: None,
        ordering: Some(Direction::Unordered),
        context: StringMap::new(),
    }
}

#[test]
fn test_scan_join() {
    let scan = scan_join();
    let druid_client = DruidClient::new(vec!["localhost:8082".to_string()]);
    let request = druid_client.scan_request(&scan).unwrap();
    assert_eq!(request.url, URL);
    assert_eq!(
        request.body,
        r#"{"queryType":"scan","dataSource":{"type":"join","left":{"type":"table","name":"wikipedia"},"right":{"type":"query","query":{"queryType":"scan","dataSource":{"type":"table","name":"countries"},"intervals":["-146136543-09-08T08:23:32.096Z/146140482-04-24T15:36:27.903Z"],"resultFormat":"list","filter":null,"columns":["Name","languages"],"batchSize":10,"limit":null,"ordering":"none","context":{}}},"rightPrefix":"c.","condition":"countryName == \"c.Name\"","joinType":"INNER"},"intervals":["-146136543-09-08T08:23:32.096Z/146140482-04-24T15:36:27.903Z"],"resultFormat":"list","filter":null,"columns":[],"batchSize":10,"limit":10,"ordering":"none","context":{}}"#
    );
    let reply = r#"[{"segmentId":"wikipedia_2015","columns":["__time","user","c.languages"],"events":[{"__time":1442018818771,"user":"GELongstreet","c.languages":null}]}]"#;
    let result = DruidClient::scan_response(Ok(reply.to_string())).unwrap();
    assert_eq!(result.len(), 1);
    assert_eq!(result[0].segment_id, "wikipedia_2015");
    assert_eq!(result[0].columns, vec!["__time", "user", "c.languages"]);
    assert_eq!(result[0].events.len(), 1);
    assert_eq!(result[0].events[0].usize_field("__time"), Some(1442018818771));
    assert_eq!(result[0].events[0].text_field("user"), Some("GELongstreet".to_string()));
}

fn post_aggregations(name: &str) -> Vec<PostAggregation> {
    vec![PostAggregation::Arithmetic {
        name: name.into(),
        function: "/".into(),
        fields: vec![
            PostAggregator::field_access("count_percent", "count"),
            PostAggregator::constant("hundred", 100.into()),
        ],
        ordering: None,
    }]
}

fn group_by() -> GroupBy {
    GroupBy {
        data_source: DataSource::table("wikipedia"),
        dimensions: vec![Dimension::Default {
            dimension: "page".into(),
            output_name: "page".into(),
            output_type: OutputType::STRING,
        }],
        limit_spec: Some(LimitSpec {
            limit: 10,
            columns: vec![OrderByColumnSpec::new(
                "page",
                Direction::Descending,
                SortingOrder::Alphanumeric,
            )],
        }),
        granularity: Granularity::All,
        filter: Some(Filter::selector("user", "Taffe316")),
        aggregations: wiki_aggregations(),
        post_aggregations: post_aggregations("count_fraction"),
        having: Some(HavingSpec::greater_than("count_fraction", float(0.01).into())),
        intervals: vec![INTERVAL.into()],
        subtotal_spec: Default::default(),
        context: Default::default(),
    }
}

#[test]
fn test_group_by() {
    let group_by = group_by();
    let druid_client = DruidClient::new(vec!["localhost:8082".to_string()]);
    let request = druid_client.group_by_request(&group_by).unwrap();
    assert_eq!(request.url, URL);
    assert_eq!(
        request.body,
        r#"{"queryType":"groupBy","dataSource":{"type":"table","name":"wikipedia"},"dimensions":[{"type":"default","dimension":"page","outputName":"page","outputType":"STRING"}],"limitSpec":{"type":"default","limit":10,"columns":[{"dimension":"page","direction":"descending","dimensionOrder":"alphanumeric"}]},"having":{"type":"greaterThan","aggregation":"count_fraction","value":0.01},"granularity":"all","filter":{"type":"selector","dimension":"user","value":"Taffe316","extractFn":null},"aggregations":[{"type":"count","name":"count"},{"type":"stringFirst","name":"user","fieldName":"user","maxStringBytes":1024}],"postAggregations":[{"type":"arithmetic","name":"count_fraction","fn":"/","fields":[{"type":"fieldAccess","name":"count_percent","fieldName":"count"},{"type":"constant","name":"hundred","value":100}],"ordering":null}],"intervals":["-146136543-09-08T08:23:32.096Z/146140482-04-24T15:36:27.903Z"],"subtotalSpec":[],"context":{}}"#
    );
    let reply = r#"[{"version":"v1","timestamp":"-146136543-09-08T08:23:32.096Z","event":{"page":"Main","user":"Taffe316","count":2,"count_fraction":0.02}}]"#;
    let result = DruidClient::group_by_response(Ok(reply.to_string())).unwrap();
    assert_eq!(result.len(), 1);
    assert_eq!(result[0].timestamp, "-146136543-09-08T08:23:32.096Z");
    assert_eq!(result[0].event.usize_field("count"), Some(2));
    assert_eq!(
        JsonNumber::field_from_json(&result[0].event, "count_fraction"),
        Some(JsonNumber::Float(float(0.02)))
    );
}

fn timeseries() -> Timeseries {
    let mut context = StringMap::new();
    context.insert("grandTotal".to_string(), "true".to_string());
    Timeseries {
        data_source: DataSource::table("wikipedia"),
        limit: Some(10),
        descending: false,
        granularity: Granularity::All,
        filter: None,
        aggregations: wiki_aggregations(),
        post_aggregations: post_aggregations("count_ololo"),
        intervals: vec![INTERVAL.into()],
        context,
    }
}

#[test]
fn test_timeseries() {
    let timeseries = timeseries();
    let druid_client = DruidClient::new(vec!["localhost:8082".to_string()]);
    let request = druid_client.timeseries_request(&timeseries).unwrap();
    assert_eq!(request.url, URL);
    assert_eq!(
        request.body,
        r#"{"queryType":"timeseries","dataSource":{"type":"table","name":"wikipedia"},"granularity":"all","descending":false,"intervals":["-146136543-09-08T08:23:32.096Z/146140482-04-24T15:36:27.903Z"],"filter":null,"aggregations":[{"type":"count","name":"count"},{"type":"stringFirst","name":"user","fieldName":"user","maxStringBytes":1024}],"postAggregations":[{"type":"arithmetic","name":"count_ololo","fn":"/","fields":[{"type":"fieldAccess","name":"count_percent","fieldName":"count"},{"type":"constant","name":"hundred","value":100}],"ordering":null}],"limit":10,"context":{"grandTotal":"true"}}"#
    );
    let reply = r#"[{"timestamp":"2015-09-12T00:46:58.771Z","result":{"count":39244,"count_ololo":392.44,"user":"GELongstreet"}},{"result":{"count":39244,"count_ololo":392.44,"user":"GELongstreet"},"timestamp":"total"}]"#;
    let result = DruidClient::timeseries_response(Ok(reply.to_string())).unwrap();
    assert_eq!(result.len(), 2);
    assert_eq!(result[0].timestamp, "2015-09-12T00:46:58.771Z");
    assert_eq!(result[0].result.usize_field("count"), Some(39244));
    assert_eq!(result[1].timestamp, "total");
}

#[test]
fn test_group_by_builder() {
    let group_by = GroupByBuilder::new(DataSource::table("wikipedia"))
        .dimensions(vec![Dimension::Default {
            dimension: "page".into(),
            output_name: "title".into(),
            output_type: OutputType::STRING,
        }])
        .limit(LimitSpec {
            limit: 10,
            columns: vec![OrderByColumnSpec::new(
                "title",
                Direction::Descending,
                SortingOrder::Alphanumeric,
            )],
        })
        .having(HavingSpec::greater_than("count_ololo", float(0.001).into()))
        .filter(Filter::selector("user", "Taffe316"))
        .aggregations(wiki_aggregations())
        .post_aggregations(post_aggregations("count_ololo"))
        .intervals(vec![INTERVAL.into()])
        .add_context("groupByStrategy", "v2")
        .build();
    let druid_client = DruidClient::new(vec!["localhost:8082".to_string()]);
    let request = druid_client.group_by_request(&group_by).unwrap();
    assert_eq!(request.url, URL);
    assert_eq!(
        request.body,
        r#"{"queryType":"groupBy","dataSource":{"type":"table","name":"wikipedia"},"dimensions":[{"type":"default","dimension":"page","outputName":"title","outputType":"STRING"}],"limitSpec":{"type":"default","limit":10,"columns":[{"dimension":"title","direction":"descending","dimensionOrder":"alphanumeric"}]},"having":{"type":"greaterThan","aggregation":"count_ololo","value":0.001},"granularity":"all","filter":{"type":"selector","dimension":"user","value":"Taffe316","extractFn":null},"aggregations":[{"type":"count","name":"count"},{"type":"stringFirst","name":"user","fieldName":"user","maxStringBytes":1024}],"postAggregations":[{"type":"arithmetic","name":"count_ololo","fn":"/","fields":[{"type":"fieldAccess","name":"count_percent","fieldName":"count"},{"type":"constant","name":"hundred","value":100}],"ordering":null}],"intervals":["-146136543-09-08T08:23:32.096Z/146140482-04-24T15:36:27.903Z"],"subtotalSpec":[],"context":{"groupByStrategy":"v2"}}"#
    );
}

fn search() -> Search {
    Search {
        data_source: DataSource::table("wikipedia"),
        search_dimensions: vec!["page".into(), "user".into()],
        query: SearchQuerySpec::contains_insensitive("500"),
        sort: None,
        filter: None,
        limit: 20,
        intervals: vec![INTERVAL.into()],
        context: Default::default(),
        granularity: Granularity::All,
    }
}

#[test]
fn test_search() {
    let search = search();
    let druid_client = DruidClient::new(vec!["localhost:8082".to_string()]);
    let request = druid_client.search_request(&search).unwrap();
    assert_eq!(request.url, URL);
    assert_eq!(
        request.body,
        r#"{"queryType":"search","dataSource":{"type":"table","name":"wikipedia"},"granularity":"all","filter":null,"limit":20,"intervals":["-146136543-09-08T08:23:32.096Z/146140482-04-24T15:36:27.903Z"],"searchDimensions":["page","user"],"query":{"type":"insensitive_contains","value":"500"},"sort":null,"context":{}}"#
    );
    let reply = r#"[{"timestamp":"2015-09-12T00:46:58.771Z","result":[{"dimension":"page","value":"500 (number)","count":1},{"dimension":"user","value":500,"count":2},{"dimension":"user","value":true,"count":3},{"dimension":"user","value":5.5,"count":4}]}]"#;
    let result = DruidClient::search_response(Ok(reply.to_string())).unwrap();
    assert_eq!(result.len(), 1);
    let found = &result[0].result;
    assert_eq!(found.len(), 4);
    assert_eq!(found[0].dimension, "page");
    assert_eq!(found[0].value, JsonAny::STRING("500 (number)".to_string()));
    assert_eq!(found[0].count, 1);
    assert_eq!(found[1].value, JsonAny::Integer(500));
    assert_eq!(found[2].value, JsonAny::Boolean(true));
    assert_eq!(found[3].value, JsonAny::Float(float(5.5)));
}

#[test]
fn test_time_boundary() {
    let top_n = TimeBoundary {
        data_source: DataSource::table("wikipedia"),
        filter: None,
        context: Default::default(),
        bound: TimeBoundType::MinMaxTime,
    };
    let druid_client = DruidClient::new(vec!["localhost:8082".to_string()]);
    let request = druid_client.time_boundary_request(&top_n).unwrap();
    assert_eq!(request.url, URL);
    assert_eq!(
        request.body,
        r#"{"queryType":"timeBoundary","dataSource":{"type":"table","name":"wikipedia"},"filter":null,"context":{}}"#
    );
    let reply = r#"[{"timestamp":"2015-09-12T00:46:58.771Z","result":{"maxTime":"2015-09-12T23:59:59.200Z","minTime":"2015-09-12T00:46:58.771Z"}}]"#;
    let result = DruidClient::time_boundary_response(Ok(reply.to_string())).unwrap();
    assert_eq!(result.len(), 1);
    assert_eq!(result[0].timestamp, "2015-09-12T00:46:58.771Z");
    assert_eq!(result[0].result.max_time, Some("2015-09-12T23:59:59.200Z".to_string()));
    assert_eq!(result[0].result.min_time, Some("2015-09-12T00:46:58.771Z".to_string()));
}

#[test]
fn test_data_source_metadata() {
    let druid_client = DruidClient::new(vec!["localhost:8082".to_string()]);
    let request = druid_client
        .datasource_metadata_request(DataSource::table("wikipedia"))
        .unwrap();
    assert_eq!(request.url, URL);
    assert_eq!(
        request.body,
        r#"{"queryType":"dataSourceMetadata","dataSource":{"type":"table","name":"wikipedia"},"context":{}}"#
    );
    let reply = r#"[{"timestamp":"2015-09-12T23:59:59.200Z","result":{"maxIngestedEventTime":"2015-09-12T23:59:59.200Z"}}]"#;
    let result = DruidClient::datasource_metadata_response(Ok(reply.to_string())).unwrap();
    assert_eq!(result.len(), 1);
    assert_eq!(
        result[0].result.get("maxIngestedEventTime"),
        Some(&"2015-09-12T23:59:59.200Z".to_string())
    );
}

fn segment_metadata() -> SegmentMetadata {
    SegmentMetadata {
        data_source: DataSource::table("countries"),
        intervals: vec![INTERVAL.into()],
        to_include: ToInclude::All,
        merge: false,
        analysis_types: vec![
            AnalysisType::Minmax,
            AnalysisType::Size,
            AnalysisType::Interval,
            AnalysisType::TimestampSpec,
            AnalysisType::QueryGranularity,
            AnalysisType::Aggregators,
            AnalysisType::Rollup,
            AnalysisType::Cardinality,
        ],
        lenient_aggregator_merge: false,
    }
}

#[test]
fn test_segment_metadata() {
    let segment_query = segment_metadata();
    let druid_client = DruidClient::new(vec!["localhost:8082".to_string()]);
    let request = druid_client.segment_metadata_request(&segment_query).unwrap();
    assert_eq!(request.url, URL);
    assert_eq!(
        request.body,
        r#"{"queryType":"segmentMetadata","dataSource":{"type":"table","name":"countries"},"intervals":["-146136543-09-08T08:23:32.096Z/146140482-04-24T15:36:27.903Z"],"toInclude":{"type":"all"},"merge":false,"analysisTypes":["minmax","size","interval","timestampSpec","queryGranularity","aggregators","rollup","cardinality"],"lenientAggregatorMerge":false}"#
    );
    let reply = r#"[{"id":"countries_2020","intervals":["2020-01-01T00:00:00.000Z/2020-01-02T00:00:00.000Z"],"columns":{"__time":{"type":"LONG","hasMultipleValues":false,"size":1970,"cardinality":null,"minValue":null,"maxValue":null,"errorMessage":null},"Name":{"type":"STRING","hasMultipleValues":false,"size":2531,"cardinality":197,"minValue":"Afghanistan","maxValue":"Zimbabwe","errorMessage":null}},"size":12345,"numRows":197,"aggregators":null,"timestampSpec":{"column":"time","format":"auto","missingValue":null},"queryGranularity":null,"rollup":false}]"#;
    let result = DruidClient::segment_metadata_response(Ok(reply.to_string())).unwrap();
    assert_eq!(result.len(), 1);
    let segment = &result[0];
    assert_eq!(segment.id, "countries_2020");
    assert_eq!(segment.intervals.len(), 1);
    assert_eq!(segment.columns.len(), 2);
    assert_eq!(segment.columns[0].0, "__time");
    assert_eq!(segment.columns[0].1.column_type, "LONG");
    assert_eq!(segment.columns[0].1.cardinality, None);
    assert_eq!(segment.columns[1].0, "Name");
    assert_eq!(segment.columns[1].1.size, 2531);
    assert_eq!(segment.columns[1].1.cardinality, Some(JsonNumber::Integer(197)));
    assert_eq!(segment.columns[1].1.min_value, Some(JsonAny::STRING("Afghanistan".to_string())));
    assert_eq!(segment.size, Some(12345));
    assert_eq!(segment.num_rows, Some(197));
    assert_eq!(segment.rollup, Some(false));
    assert_eq!(segment.query_granularity, None);
    assert_eq!(segment.timestamp_spec.column, "time");
    assert!(segment.aggregators.is_empty());
}

#[test]
fn every_kind_of_query_carries_its_tag() {
    let cases: Vec<(Query, &str)> = vec![
        (top_n().into(), "topN"),
        (group_by().into(), "groupBy"),
        (scan_join().into(), "scan"),
        (search().into(), "search"),
        (
            TimeBoundary {
                data_source: DataSource::table("wikipedia"),
                filter: None,
                context: Default::default(),
                bound: TimeBoundType::MaxTime,
            }
            .into(),
            "timeBoundary",
        ),
        (segment_metadata().into(), "segmentMetadata"),
        (timeseries().into(), "timeseries"),
    ];
    for (query, tag) in cases {
        let wire = query.to_json();
        assert_eq!(wire.get("queryType"), Some(&Json::text(tag)));
        let text = render(&wire).unwrap();
        assert!(text.starts_with(&format!("{{\"queryType\":\"{}\",", tag)));
        assert_eq!(Query::from_json(&parse(&text).unwrap()), Some(query));
    }
    let metadata = DruidClient::datasource_metadata_query(DataSource::lookup("l"));
    assert_eq!(metadata.to_json().get("queryType"), Some(&Json::text("dataSourceMetadata")));
}

#[test]
fn any_query_goes_through_the_generic_request() {
    let druid_client = DruidClient::new(vec!["localhost:8082".to_string()]);
    let query: Query = search().into();
    let generic = druid_client.query_request(&query).unwrap();
    let specific = druid_client.search_request(&search()).unwrap();
    assert_eq!(generic, specific);
    let reply = r#"[{"a":1},{"b":2}]"#;
    let rows = DruidClient::query_response(Ok(reply.to_string())).unwrap();
    assert_eq!(rows.len(), 2);
    assert_eq!(rows[1].usize_field("b"), Some(2));
    assert!(matches!(
        DruidClient::query_response(Ok("{\"a\":1}".to_string())),
        Err(DruidClientError::ParsingResponseError { .. })
    ));
}

#[test]
fn time_boundary_with_one_end_writes_the_bound() {
    let query = TimeBoundary {
        data_source: DataSource::table("wikipedia"),
        filter: None,
        context: Default::default(),
        bound: TimeBoundType::MaxTime,
    };
    assert_eq!(
        render(&query.to_json()).unwrap(),
        r#"{"queryType":"timeBoundary","dataSource":{"type":"table","name":"wikipedia"},"bound":"maxTime","filter":null,"context":{}}"#
    );
    let min = TimeBoundary { bound: TimeBoundType::MinTime, ..query };
    assert!(render(&min.to_json()).unwrap().contains(r#""bound":"minTime""#));
}

#[test]
fn segment_metadata_without_analysis_types_leaves_them_out() {
    let query = SegmentMetadata { analysis_types: vec![], ..segment_metadata() };
    let text = render(&query.to_json()).unwrap();
    assert!(!text.contains("analysisTypes"));
    assert_eq!(
        text,
        r#"{"queryType":"segmentMetadata","dataSource":{"type":"table","name":"countries"},"intervals":["-146136543-09-08T08:23:32.096Z/146140482-04-24T15:36:27.903Z"],"toInclude":{"type":"all"},"merge":false,"lenientAggregatorMerge":false}"#
    );
    assert_eq!(SegmentMetadata::from_json(&parse(&text).unwrap()), Some(query));
}
