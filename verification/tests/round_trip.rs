use druid_io::json::Json;
use druid_io::query::definitions::{
    Aggregation, Dimension, Direction, ExtractFN, Filter, FilterQuerySpec, Granularity, HllType,
    LookupMap, NullHandling, OutputType, SortingOrder,
};
use druid_io::query::group_by::{
    GroupBy, HavingSpec, LimitSpec, OrderByColumnSpec, PostAggregation, PostAggregator,
};
use druid_io::query::scan::{ResultFormat, Scan};
use druid_io::query::search::{Search, SearchQuerySpec};
use druid_io::query::segment_metadata::{AnalysisType, SegmentMetadata, ToInclude};
use druid_io::query::time_boundary::{TimeBoundType, TimeBoundary};
use druid_io::query::timeseries::Timeseries;
use druid_io::query::top_n::TopN;
use druid_io::query::{
    DataSource, DataSourceMetadata, JoinType, JsonAny, JsonNumber, Query, Real,
};
use druid_io::string_map::StringMap;
use druid_io::text::{parse, render};

fn float(x: f64) -> Real {
    Real::new(serde_json::Number::from_f64(x).unwrap()).unwrap()
}

fn through_text(wire: &Json) -> Json {
    parse(&render(wire).unwrap()).unwrap()
}

fn map(entries: &[(&str, &str)]) -> StringMap {
    let mut m = StringMap::new();
    for (k, v) in entries {
        m.insert(k.to_string(), v.to_string());
    }
    m
}

fn lookup_map() -> LookupMap {
    LookupMap { map: map(&[("a", "Alpha"), ("b", "Beta")]), is_one_to_one: true }
}

fn extraction_fns() -> Vec<ExtractFN> {
    vec![
        ExtractFN::Regex {
            expr: "(\\w+)".into(),
            index: 1,
            replace_missing_value: true,
            replace_missing_value_with: Some("none".into()),
        },
        ExtractFN::Regex {
            expr: "x".into(),
            index: 0,
            replace_missing_value: false,
            replace_missing_value_with: None,
        },
        ExtractFN::Partial { expr: "abc".into() },
        ExtractFN::Substring { index: 2, length: Some(3) },
        ExtractFN::Substring { index: 0, length: None },
        ExtractFN::Strlen,
        ExtractFN::TimeFormat {
            format: Some("yyyy".into()),
            time_zone: None,
            locale: Some("en".into()),
            granularity: Some(Granularity::Duration { duration: 3600000 }),
            as_millis: false,
        },
        ExtractFN::TimeFormat {
            format: None,
            time_zone: Some("UTC".into()),
            locale: None,
            granularity: Some(Granularity::Day),
            as_millis: true,
        },
        ExtractFN::TimeFormat {
            format: None,
            time_zone: None,
            locale: None,
            granularity: None,
            as_millis: true,
        },
        ExtractFN::Time { time_format: "a".into(), result_format: "b".into(), joda: true },
        ExtractFN::Javascript { function: "function(x) { return x; }".into() },
        ExtractFN::RegisteredLookup { lookup: "names".into(), retain_missing_value: true },
        ExtractFN::Lookup {
            lookup: lookup_map(),
            retain_missing_value: false,
            injective: true,
            replace_missing_value_with: "?".into(),
        },
        ExtractFN::Cascade {
            extraction_fns: vec![
                ExtractFN::Strlen,
                ExtractFN::Cascade { extraction_fns: vec![] },
                ExtractFN::Upper { locale: None },
            ],
        },
        ExtractFN::StringFormat { format: "%s".into(), null_handling: Some(NullHandling::ReturnNull) },
        ExtractFN::StringFormat { format: "%s".into(), null_handling: None },
        ExtractFN::Upper { locale: Some("fr".into()) },
        ExtractFN::Lower { locale: None },
        ExtractFN::Bucket { size: 5, offset: 2 },
    ]
}

#[test]
fn extraction_functions_round_trip() {
    for f in extraction_fns() {
        let wire = f.to_json();
        assert_eq!(ExtractFN::from_json(&wire).as_ref(), Some(&f));
        assert_eq!(ExtractFN::from_json(&through_text(&wire)), Some(f));
    }
}

#[test]
fn extraction_function_wire_forms() {
    assert_eq!(render(&ExtractFN::Strlen.to_json()).unwrap(), r#""strlen""#);
    assert_eq!(
        render(&ExtractFN::Bucket { size: 5, offset: 2 }.to_json()).unwrap(),
        r#"{"bucket":{"size":5,"offset":2}}"#
    );
    assert_eq!(
        render(&ExtractFN::Upper { locale: None }.to_json()).unwrap(),
        r#"{"upper":{"locale":null}}"#
    );
    assert_eq!(
        render(
            &ExtractFN::Lookup {
                lookup: lookup_map(),
                retain_missing_value: false,
                injective: true,
                replace_missing_value_with: "?".into(),
            }
            .to_json()
        )
        .unwrap(),
        r#"{"lookup":{"lookup":{"type":"map","map":{"a":"Alpha","b":"Beta"},"isOneToOne":true},"retainMissingValue":false,"injective":true,"replaceMissingValueWith":"?"}}"#
    );
}

#[test]
fn extraction_function_rejects_other_shapes() {
    assert_eq!(ExtractFN::from_json(&parse(r#""regex""#).unwrap()), None);
    assert_eq!(ExtractFN::from_json(&parse(r#""unknown""#).unwrap()), None);
    assert_eq!(ExtractFN::from_json(&parse(r#"{"strlen":{}}"#).unwrap()), None);
    assert_eq!(ExtractFN::from_json(&parse(r#"{}"#).unwrap()), None);
    assert_eq!(
        ExtractFN::from_json(&parse(r#"{"partial":{"expr":"a"},"upper":{"locale":null}}"#).unwrap()),
        None
    );
    assert_eq!(ExtractFN::from_json(&parse(r#"{"partial":{"expr":1}}"#).unwrap()), None);
    assert_eq!(ExtractFN::from_json(&parse(r#"{"bucket":{"size":5}}"#).unwrap()), None);
    assert_eq!(ExtractFN::from_json(&parse(r#"[1]"#).unwrap()), None);
}

fn granularities() -> Vec<(Granularity, &'static str)> {
    vec![
        (Granularity::All, r#""all""#),
        (Granularity::Unbucketed, r#""none""#),
        (Granularity::Second, r#""second""#),
        (Granularity::Minute, r#""minute""#),
        (Granularity::FifteenMinute, r#""fifteen_minute""#),
        (Granularity::ThirtyMinute, r#""thirty_minute""#),
        (Granularity::Hour, r#""hour""#),
        (Granularity::Day, r#""day""#),
        (Granularity::Week, r#""week""#),
        (Granularity::Month, r#""month""#),
        (Granularity::Quarter, r#""quarter""#),
        (Granularity::Year, r#""year""#),
        (Granularity::Duration { duration: 7200000 }, r#"{"duration":{"duration":7200000}}"#),
    ]
}

#[test]
fn granularities_round_trip() {
    for (g, text) in granularities() {
        assert_eq!(render(&g.to_json()).unwrap(), text);
        assert_eq!(Granularity::from_json(&parse(text).unwrap()), Some(g));
    }
    assert_eq!(Granularity::from_json(&parse(r#""ALL""#).unwrap()), None);
    assert_eq!(Granularity::from_json(&parse(r#""duration""#).unwrap()), None);
    assert_eq!(Granularity::from_json(&parse(r#"{"duration":{"duration":-1}}"#).unwrap()), None);
}

#[test]
fn plain_enumerations_round_trip() {
    for (v, text) in [(OutputType::STRING, "STRING"), (OutputType::LONG, "LONG"), (OutputType::FLOAT, "FLOAT")] {
        assert_eq!(v.to_json(), Json::text(text));
        assert_eq!(OutputType::from_json(&Json::text(text)), Some(v));
    }
    for (v, text) in [(HllType::HLL_4, "HLL_4"), (HllType::HLL_6, "HLL_6"), (HllType::HLL_8, "HLL_8")] {
        assert_eq!(v.to_json(), Json::text(text));
        assert_eq!(HllType::from_json(&Json::text(text)), Some(v));
    }
    for (v, text) in [
        (NullHandling::NullString, "nullString"),
        (NullHandling::EmptyString, "emptyString"),
        (NullHandling::ReturnNull, "returnNull"),
    ] {
        assert_eq!(v.to_json(), Json::text(text));
        assert_eq!(NullHandling::from_json(&Json::text(text)), Some(v));
    }
    for (v, text) in [
        (Direction::Ascending, "ascending"),
        (Direction::Descending, "descending"),
        (Direction::Unordered, "none"),
    ] {
        assert_eq!(v.to_json(), Json::text(text));
        assert_eq!(Direction::from_json(&Json::text(text)), Some(v));
    }
    for (v, text) in [
        (SortingOrder::Lexicographic, "lexicographic"),
        (SortingOrder::Alphanumeric, "alphanumeric"),
        (SortingOrder::Strlen, "strlen"),
        (SortingOrder::Numeric, "numeric"),
    ] {
        assert_eq!(v.to_json(), Json::text(text));
        assert_eq!(SortingOrder::from_json(&Json::text(text)), Some(v));
    }
    for (v, text) in [(JoinType::Inner, "INNER"), (JoinType::Left, "LEFT")] {
        assert_eq!(v.to_json(), Json::text(text));
        assert_eq!(JoinType::from_json(&Json::text(text)), Some(v));
    }
    for (v, text) in [
        (ResultFormat::List, "list"),
        (ResultFormat::CompactedList, "compactedList"),
        (ResultFormat::ValueVector, "valueVector"),
    ] {
        assert_eq!(v.to_json(), Json::text(text));
        assert_eq!(ResultFormat::from_json(&Json::text(text)), Some(v));
    }
    for (v, text) in [
        (TimeBoundType::MaxTime, "maxTime"),
        (TimeBoundType::MinTime, "minTime"),
        (TimeBoundType::MinMaxTime, "minMaxTime"),
    ] {
        assert_eq!(v.to_json(), Json::text(text));
        assert_eq!(TimeBoundType::from_json(&Json::text(text)), Some(v));
    }
    for (v, text) in [
        (AnalysisType::Cardinality, "cardinality"),
        (AnalysisType::Minmax, "minmax"),
        (AnalysisType::Size, "size"),
        (AnalysisType::Interval, "interval"),
        (AnalysisType::TimestampSpec, "timestampSpec"),
        (AnalysisType::QueryGranularity, "queryGranularity"),
        (AnalysisType::Aggregators, "aggregators"),
        (AnalysisType::Rollup, "rollup"),
    ] {
        assert_eq!(v.to_json(), Json::text(text));
        assert_eq!(AnalysisType::from_json(&Json::text(text)), Some(v));
    }
    assert_eq!(OutputType::from_json(&Json::text("string")), None);
    assert_eq!(JoinType::from_json(&Json::text("inner")), None);
    assert_eq!(Direction::from_json(&Json::Null), None);
    assert_eq!(SortingOrder::from_json(&Json::from_usize(1)), None);
}

#[test]
fn is_both_holds_of_min_max_time_only() {
    assert!(TimeBoundType::MinMaxTime.is_both());
    assert!(!TimeBoundType::MinTime.is_both());
    assert!(!TimeBoundType::MaxTime.is_both());
}

fn dimensions() -> Vec<Dimension> {
    vec![
        Dimension::default("page"),
        Dimension::Default {
            dimension: "added".into(),
            output_name: "sum".into(),
            output_type: OutputType::LONG,
        },
        Dimension::Extraction {
            dimenstion: "page".into(),
            output_name: "p".into(),
            output_type: OutputType::FLOAT,
            extraction_fn: ExtractFN::Strlen,
        },
        Dimension::ListFiltered {
            delegate: Box::new(Dimension::default("tags")),
            values: vec!["a".into(), "b".into()],
            is_whitelist: true,
        },
        Dimension::regex(Dimension::default("page"), "^A.*"),
        Dimension::prefix(Dimension::regex(Dimension::default("page"), "x"), "Talk:"),
        Dimension::LookupMap {
            dimension: "country".into(),
            output_name: "name".into(),
            replace_missing_value_with: "?".into(),
            retain_missing_value: false,
            lookup: lookup_map(),
        },
        Dimension::Lookup { dimension: "country".into(), output_name: "name".into(), name: "countries".into() },
    ]
}

#[test]
fn dimensions_round_trip() {
    for d in dimensions() {
        let wire = d.to_json();
        assert_eq!(Dimension::from_json(&wire).as_ref(), Some(&d));
        assert_eq!(Dimension::from_json(&through_text(&wire)), Some(d));
    }
}

#[test]
fn dimension_wire_forms() {
    assert_eq!(
        render(&Dimension::default("page").to_json()).unwrap(),
        r#"{"type":"default","dimension":"page","outputName":"page","outputType":"STRING"}"#
    );
    assert_eq!(
        render(&Dimension::prefix(Dimension::default("page"), "T").to_json()).unwrap(),
        r#"{"type":"prefixFiltered","delegate":{"type":"default","dimension":"page","outputName":"page","outputType":"STRING"},"prefix":"T"}"#
    );
    assert_eq!(
        render(
            &Dimension::Lookup { dimension: "c".into(), output_name: "n".into(), name: "l".into() }
                .to_json()
        )
        .unwrap(),
        r#"{"type":"lookup","dimension":"c","output_name":"n","name":"l"}"#
    );
    assert_eq!(
        render(
            &Dimension::LookupMap {
                dimension: "c".into(),
                output_name: "n".into(),
                replace_missing_value_with: "?".into(),
                retain_missing_value: true,
                lookup: LookupMap { map: StringMap::new(), is_one_to_one: false },
            }
            .to_json()
        )
        .unwrap(),
        r#"{"type":"lookup","dimension":"c","outputName":"n","replaceMissingValueWith":"?","retainMissingValue":true,"lookup":{"type":"map","map":{},"isOneToOne":false}}"#
    );
}

#[test]
fn lookup_map_tag_reads_as_the_lookup_map_variant() {
    let text = r#"{"type":"lookupMap","dimension":"c","outputName":"n","replaceMissingValueWith":"?","retainMissingValue":true,"lookup":{"type":"map","map":{"k":"v"},"isOneToOne":false}}"#;
    assert_eq!(
        Dimension::from_json(&parse(text).unwrap()),
        Some(Dimension::LookupMap {
            dimension: "c".into(),
            output_name: "n".into(),
            replace_missing_value_with: "?".into(),
            retain_missing_value: true,
            lookup: LookupMap { map: map(&[("k", "v")]), is_one_to_one: false },
        })
    );
}

#[test]
fn members_may_come_in_any_order_and_others_are_passed_over() {
    let text = r#"{"outputType":"LONG","extra":[1,2],"outputName":"o","dimension":"d","type":"default"}"#;
    assert_eq!(
        Dimension::from_json(&parse(text).unwrap()),
        Some(Dimension::Default {
            dimension: "d".into(),
            output_name: "o".into(),
            output_type: OutputType::LONG,
        })
    );
}

#[test]
fn a_missing_or_mistyped_member_is_refused() {
    assert_eq!(Dimension::from_json(&parse(r#"{"type":"default","dimension":"d","outputName":"o"}"#).unwrap()), None);
    assert_eq!(Dimension::from_json(&parse(r#"{"type":"default","dimension":1,"outputName":"o","outputType":"LONG"}"#).unwrap()), None);
    assert_eq!(Dimension::from_json(&parse(r#"{"type":"nothing","dimension":"d"}"#).unwrap()), None);
    assert_eq!(Dimension::from_json(&parse(r#"{"dimension":"d","outputName":"o","outputType":"LONG"}"#).unwrap()), None);
    assert_eq!(Dimension::from_json(&parse(r#"{"type":7}"#).unwrap()), None);
    assert_eq!(Dimension::from_json(&parse(r#""default""#).unwrap()), None);
    assert_eq!(Filter::from_json(&parse(r#"{"type":"not"}"#).unwrap()), None);
    assert_eq!(Filter::from_json(&parse(r#"{"type":"and","fields":{}}"#).unwrap()), None);
    assert_eq!(Filter::from_json(&parse(r#"{"type":"and","fields":[{"type":"true"},{"type":"x"}]}"#).unwrap()), None);
    assert_eq!(Filter::from_json(&parse(r#"{"type":"selector","dimension":"d","value":"v","extractFn":5}"#).unwrap()), None);
}

fn filters() -> Vec<Filter> {
    vec![
        Filter::selector("user", "Taffe316"),
        Filter::Selector {
            dimension: "d".into(),
            value: "v".into(),
            extract_fn: Some(ExtractFN::Lower { locale: None }),
        },
        Filter::column_comparison(vec!["a", "b"]),
        Filter::regex("page", "^Talk"),
        Filter::And { fields: vec![] },
        Filter::Or { fields: vec![] },
        Filter::And {
            fields: vec![
                Filter::True,
                Filter::Or { fields: vec![Filter::selector("a", "b"), Filter::True] },
                Filter::Not { field: Box::new(Filter::Not { field: Box::new(Filter::True) }) },
            ],
        },
        Filter::javascript("x", "function(x) { return x == 1 }"),
        Filter::Search {
            dimension: "page".into(),
            query: FilterQuerySpec::Contains { value: "a".into(), case_sensitive: true },
        },
        Filter::Search {
            dimension: "page".into(),
            query: FilterQuerySpec::InsensitiveContains { value: "a".into() },
        },
        Filter::Search {
            dimension: "page".into(),
            query: FilterQuerySpec::Fragment { values: vec!["a".into(), "b".into()], case_sensitive: false },
        },
        Filter::in_values("country", vec!["fr", "de"]),
        Filter::like("page", "T%"),
        Filter::Like {
            dimension: "page".into(),
            pattern: "T%".into(),
            escape: Some("\\".into()),
            extraction_fn: Some(ExtractFN::Strlen),
        },
        Filter::Bound {
            dimension: "age".into(),
            lower: "21".into(),
            upper: "31".into(),
            lower_strict: false,
            upper_strict: true,
            ordering: SortingOrder::Numeric,
            extraction_fn: None,
        },
        Filter::Interval {
            dimension: "__time".into(),
            intervals: vec!["2014-10-01T00:00:00.000Z/2014-10-07T00:00:00.000Z".into()],
            extraction_fn: Some(ExtractFN::Partial { expr: "x".into() }),
        },
        Filter::True,
    ]
}

#[test]
fn filters_round_trip() {
    for f in filters() {
        let wire = f.to_json();
        assert_eq!(Filter::from_json(&wire).as_ref(), Some(&f));
        assert_eq!(Filter::from_json(&through_text(&wire)), Some(f));
    }
}

#[test]
fn filter_wire_forms() {
    assert_eq!(render(&Filter::True.to_json()).unwrap(), r#"{"type":"true"}"#);
    assert_eq!(
        render(&Filter::Not { field: Box::new(Filter::And { fields: vec![] }) }.to_json()).unwrap(),
        r#"{"type":"not","field":{"type":"and","fields":[]}}"#
    );
    assert_eq!(
        render(&Filter::in_values("c", vec!["x"]).to_json()).unwrap(),
        r#"{"type":"in","dimension":"c","values":["x"]}"#
    );
    assert_eq!(
        render(&Filter::like("p", "T%").to_json()).unwrap(),
        r#"{"type":"like","dimension":"p","pattern":"T%","escape":null,"extractionFn":null}"#
    );
    assert_eq!(
        render(&Filter::column_comparison(vec!["a", "b"]).to_json()).unwrap(),
        r#"{"type":"columnComparison","dimensions":["a","b"]}"#
    );
    assert_eq!(
        render(
            &Filter::Bound {
                dimension: "a".into(),
                lower: "1".into(),
                upper: "2".into(),
                lower_strict: true,
                upper_strict: false,
                ordering: SortingOrder::Lexicographic,
                extraction_fn: None,
            }
            .to_json()
        )
        .unwrap(),
        r#"{"type":"bound","dimension":"a","lower":"1","upper":"2","lowerStrict":true,"upperStrict":false,"ordering":"lexicographic","extractionFn":null}"#
    );
}

fn two(make: fn(&str, &str) -> Aggregation) -> Aggregation {
    make("out", "column")
}

fn aggregations() -> Vec<(Aggregation, &'static str)> {
    fn named(v: fn(String, String) -> Aggregation) -> Aggregation {
        v("out".to_string(), "column".to_string())
    }
    vec![
        (Aggregation::count("out"), "count"),
        (two(Aggregation::long_sum), "longSum"),
        (two(Aggregation::double_sum), "doubleSum"),
        (two(Aggregation::float_sum), "floatSum"),
        (two(Aggregation::long_max), "longMax"),
        (Aggregation::double_max("out", &"column"), "doubleMax"),
        (two(Aggregation::float_max), "floatMax"),
        (two(Aggregation::long_min), "longMin"),
        (two(Aggregation::float_min), "floatMin"),
        (two(Aggregation::double_min), "doubleMin"),
        (two(Aggregation::long_first), "longFirst"),
        (two(Aggregation::float_first), "floatFirst"),
        (named(|name, field_name| Aggregation::DoubleFirst { name, field_name }), "doubleFirst"),
        (named(|name, field_name| Aggregation::LongLast { name, field_name }), "longLast"),
        (named(|name, field_name| Aggregation::FloatLast { name, field_name }), "floatLast"),
        (named(|name, field_name| Aggregation::DoubleLast { name, field_name }), "doubleLast"),
        (named(|name, field_name| Aggregation::DoubleAny { name, field_name }), "doubleAny"),
        (named(|name, field_name| Aggregation::FloatAny { name, field_name }), "floatAny"),
        (named(|name, field_name| Aggregation::LongAny { name, field_name }), "longAny"),
        (named(|name, field_name| Aggregation::StringAny { name, field_name }), "stringAny"),
        (
            Aggregation::StringFirst { name: "out".into(), field_name: "column".into(), max_string_bytes: 1024 },
            "stringFirst",
        ),
        (
            Aggregation::StringLast { name: "out".into(), field_name: "column".into(), max_string_bytes: 0 },
            "stringLast",
        ),
        (
            Aggregation::Javascript {
                name: "out".into(),
                field_names: vec!["x".into(), "y".into()],
                fn_aggregate: "a".into(),
                fn_combine: "b".into(),
                fn_reset: "c".into(),
            },
            "javascript",
        ),
        (
            Aggregation::ThetaSketch {
                name: "out".into(),
                field_name: "column".into(),
                is_input_theta_sketch: false,
                size: 16384,
            },
            "thetaSketch",
        ),
        (
            Aggregation::HLLSketchBuild {
                name: "out".into(),
                field_name: "column".into(),
                lg_k: 12,
                lgt_hll_type: HllType::HLL_4,
                round: true,
            },
            "hLLSketchBuild",
        ),
        (
            Aggregation::Cardinality {
                name: "out".into(),
                fields: vec!["a".into()],
                by_row: true,
                round: false,
            },
            "cardinality",
        ),
        (
            Aggregation::HyperUnique {
                name: "out".into(),
                field_name: "column".into(),
                is_input_hyper_unique: true,
                round: false,
            },
            "hyperUnique",
        ),
        (
            Aggregation::Filtered {
                filter: Filter::selector("a", "b"),
                aggregator: Box::new(Aggregation::Filtered {
                    filter: Filter::True,
                    aggregator: Box::new(Aggregation::count("n")),
                }),
            },
            "filtered",
        ),
    ]
}

#[test]
fn aggregations_round_trip_and_carry_their_tags() {
    let all = aggregations();
    assert_eq!(all.len(), 28);
    for (a, tag) in all {
        let wire = a.to_json();
        assert_eq!(wire.text_field("type"), Some(tag.to_string()));
        assert_eq!(Aggregation::from_json(&wire).as_ref(), Some(&a));
        assert_eq!(Aggregation::from_json(&through_text(&wire)), Some(a));
    }
}

#[test]
fn aggregation_wire_forms() {
    assert_eq!(render(&Aggregation::count("count").to_json()).unwrap(), r#"{"type":"count","name":"count"}"#);
    assert_eq!(
        render(&Aggregation::long_sum("added", "delta").to_json()).unwrap(),
        r#"{"type":"longSum","name":"added","fieldName":"delta"}"#
    );
    assert_eq!(
        render(&Aggregation::double_max("m", &"v").to_json()).unwrap(),
        r#"{"type":"doubleMax","name":"m","fieldName":"v"}"#
    );
    assert_eq!(
        render(
            &Aggregation::HLLSketchBuild {
                name: "n".into(),
                field_name: "f".into(),
                lg_k: 12,
                lgt_hll_type: HllType::HLL_8,
                round: false,
            }
            .to_json()
        )
        .unwrap(),
        r#"{"type":"hLLSketchBuild","name":"n","fieldName":"f","lgK":12,"lgtHllType":"HLL_8","round":false}"#
    );
    assert_eq!(
        render(
            &Aggregation::Filtered { filter: Filter::True, aggregator: Box::new(Aggregation::count("n")) }
                .to_json()
        )
        .unwrap(),
        r#"{"type":"filtered","filter":{"type":"true"},"aggregator":{"type":"count","name":"n"}}"#
    );
}

#[test]
fn scalars_round_trip() {
    let anys = vec![
        JsonAny::Float(float(0.5)),
        JsonAny::Float(float(-1e-7)),
        JsonAny::Integer(0),
        JsonAny::Integer(-12),
        JsonAny::Integer(isize::MAX),
        JsonAny::Integer(isize::MIN),
        JsonAny::STRING("12".into()),
        JsonAny::STRING("".into()),
        JsonAny::Boolean(true),
        JsonAny::Boolean(false),
    ];
    for a in anys {
        let wire = a.to_json();
        assert_eq!(JsonAny::from_json(&wire).as_ref(), Some(&a));
        assert_eq!(JsonAny::from_json(&through_text(&wire)), Some(a));
    }
    let numbers = vec![
        JsonNumber::Float(float(392.44)),
        JsonNumber::Integer(7),
        JsonNumber::Integer(-7),
    ];
    for n in numbers {
        let wire = n.to_json();
        assert_eq!(JsonNumber::from_json(&wire).as_ref(), Some(&n));
        assert_eq!(JsonNumber::from_json(&through_text(&wire)), Some(n));
    }
}

#[test]
fn scalars_are_read_numbers_first() {
    assert_eq!(JsonAny::from_json(&parse("12").unwrap()), Some(JsonAny::Integer(12)));
    assert_eq!(JsonAny::from_json(&parse("12.5").unwrap()), Some(JsonAny::Float(float(12.5))));
    assert_eq!(JsonAny::from_json(&parse("\"12\"").unwrap()), Some(JsonAny::STRING("12".into())));
    assert_eq!(JsonAny::from_json(&parse("\"true\"").unwrap()), Some(JsonAny::STRING("true".into())));
    assert_eq!(JsonAny::from_json(&parse("true").unwrap()), Some(JsonAny::Boolean(true)));
    assert_eq!(JsonAny::from_json(&parse("null").unwrap()), None);
    assert_eq!(JsonAny::from_json(&parse("[1]").unwrap()), None);
    assert_eq!(JsonAny::from_json(&parse("{}").unwrap()), None);
    assert_eq!(JsonAny::from_json(&parse("18446744073709551615").unwrap()), None);
    assert_eq!(JsonNumber::from_json(&parse("3").unwrap()), Some(JsonNumber::Integer(3)));
    assert_eq!(JsonNumber::from_json(&parse("3.25").unwrap()), Some(JsonNumber::Float(float(3.25))));
    assert_eq!(JsonNumber::from_json(&parse("\"3\"").unwrap()), None);
    assert_eq!(JsonNumber::from_json(&parse("false").unwrap()), None);
}

#[test]
fn real_holds_no_integer() {
    assert!(Real::new(serde_json::Number::from(5u64)).is_none());
    assert!(Real::new(serde_json::Number::from(-5i64)).is_none());
    assert!(Real::new(serde_json::Number::from(u64::MAX)).is_none());
    let half = float(0.5);
    assert_eq!(half.to_number(), serde_json::Number::from_f64(0.5).unwrap());
    assert_eq!(half.clone(), half);
    assert!(Real::new(serde_json::Number::from_f64(2.0).unwrap()).is_some());
}

#[test]
fn scalars_come_from_plain_values() {
    assert_eq!(JsonAny::from(4isize), JsonAny::Integer(4));
    assert_eq!(JsonAny::from(true), JsonAny::Boolean(true));
    assert_eq!(JsonAny::from("a".to_string()), JsonAny::STRING("a".to_string()));
    assert_eq!(JsonAny::from(float(1.5)), JsonAny::Float(float(1.5)));
    assert_eq!(JsonNumber::from(4isize), JsonNumber::Integer(4));
    assert_eq!(JsonNumber::from(float(1.5)), JsonNumber::Float(float(1.5)));
}

fn data_sources() -> Vec<DataSource> {
    vec![
        DataSource::table("wikipedia"),
        DataSource::lookup("countries"),
        DataSource::union(vec!["a", "b", "c"]),
        DataSource::union(vec![]),
        DataSource::Inline {
            column_names: vec!["x".into(), "y".into()],
            rows: vec![vec!["1".into(), "2".into()], vec![], vec!["3".into()]],
        },
        DataSource::query(Query::Scan(scan(DataSource::table("inner")))),
        DataSource::Join {
            left: Box::new(DataSource::Join {
                left: Box::new(DataSource::table("a")),
                right: Box::new(DataSource::lookup("b")),
                right_prefix: "b.".into(),
                condition: "x == \"b.k\"".into(),
                join_type: JoinType::Left,
            }),
            right: Box::new(DataSource::query(Query::Scan(scan(DataSource::query(
                Query::TimeBoundary(TimeBoundary {
                    data_source: DataSource::table("deep"),
                    bound: TimeBoundType::MinTime,
                    filter: Some(Filter::True),
                    context: StringMap::new(),
                }),
            ))))),
            right_prefix: "c.".into(),
            condition: "y == \"c.k\"".into(),
            join_type: JoinType::Inner,
        },
    ]
}

fn scan(data_source: DataSource) -> Scan {
    Scan {
        data_source,
        intervals: vec!["i".into()],
        result_format: ResultFormat::CompactedList,
        filter: Some(Filter::selector("a", "b")),
        columns: vec!["c".into()],
        batch_size: 100,
        limit: Some(5),
        ordering: Some(Direction::Ascending),
        context: map(&[("k", "v")]),
    }
}

#[test]
fn data_sources_round_trip() {
    for d in data_sources() {
        let wire = d.to_json();
        assert_eq!(DataSource::from_json(&wire).as_ref(), Some(&d));
        assert_eq!(DataSource::from_json(&through_text(&wire)), Some(d));
    }
}

#[test]
fn data_source_wire_forms() {
    assert_eq!(render(&DataSource::table("t").to_json()).unwrap(), r#"{"type":"table","name":"t"}"#);
    assert_eq!(render(&DataSource::lookup("l").to_json()).unwrap(), r#"{"type":"lookup","lookup":"l"}"#);
    assert_eq!(
        render(&DataSource::union(vec!["a", "b"]).to_json()).unwrap(),
        r#"{"type":"union","dataSources":["a","b"]}"#
    );
    assert_eq!(
        render(
            &DataSource::Inline { column_names: vec!["x".into()], rows: vec![vec!["1".into()]] }.to_json()
        )
        .unwrap(),
        r#"{"type":"inline","columnNames":["x"],"rows":[["1"]]}"#
    );
}

fn queries() -> Vec<Query> {
    let source = || DataSource::query(Query::Scan(scan(DataSource::table("t"))));
    vec![
        Query::TopN(TopN {
            data_source: source(),
            dimension: Dimension::default("page"),
            threshold: 3,
            metric: "m".into(),
            aggregations: vec![Aggregation::count("n"), Aggregation::long_sum("s", "x")],
            intervals: vec!["a".into(), "b".into()],
            granularity: Granularity::Hour,
            context: map(&[("a", "1"), ("b", "2")]),
        }),
        Query::GroupBy(GroupBy {
            data_source: source(),
            dimensions: dimensions(),
            limit_spec: Some(LimitSpec {
                limit: 4,
                columns: vec![
                    OrderByColumnSpec::new("a", Direction::Ascending, SortingOrder::Strlen),
                    OrderByColumnSpec::new("b", Direction::Unordered, SortingOrder::Numeric),
                ],
            }),
            having: Some(HavingSpec::And {
                having_specs: vec![
                    HavingSpec::filter(Filter::True),
                    HavingSpec::greater_than("a", float(0.5).into()),
                    HavingSpec::equal_to("b", 3isize.into()),
                    HavingSpec::less_than("c", (-3isize).into()),
                    HavingSpec::DimSelector { dimension: Dimension::default("d"), value: "v".to_string().into() },
                    HavingSpec::Or { having_specs: vec![] },
                    HavingSpec::Not { having_specs: Box::new(HavingSpec::And { having_specs: vec![] }) },
                ],
            }),
            granularity: Granularity::Duration { duration: 1000 },
            filter: Some(Filter::And { fields: filters() }),
            aggregations: vec![Aggregation::count("n")],
            post_aggregations: vec![
                PostAggregation::Arithmetic {
                    name: "r".into(),
                    function: "+".into(),
                    fields: vec![
                        PostAggregator::field_access("a", "b"),
                        PostAggregator::finalized_field_access("c", "d"),
                        PostAggregator::constant("one", JsonAny::Integer(1)),
                        PostAggregator::constant("half", JsonAny::Float(float(0.5))),
                        PostAggregator::constant("yes", JsonAny::Boolean(true)),
                        PostAggregator::constant("text", JsonAny::STRING("t".into())),
                        PostAggregator::hyper_unique_cardinality("u"),
                    ],
                    ordering: Some("numericFirst".into()),
                },
                PostAggregation::DoubleGreatest {
                    name: "g".into(),
                    fields: vec![PostAggregation::LongLeast { name: "l".into(), fields: vec![] }],
                },
                PostAggregation::LongGreatest { name: "g".into(), fields: vec![] },
                PostAggregation::DoubleLeast { name: "g".into(), fields: vec![] },
                PostAggregation::Javascript {
                    name: "j".into(),
                    field_names: vec!["a".into()],
                    function: "f".into(),
                },
            ],
            intervals: vec![],
            subtotal_spec: vec![vec!["a".into()], vec![]],
            context: StringMap::new(),
        }),
        Query::Scan(scan(source())),
        Query::Scan(Scan {
            data_source: DataSource::table("t"),
            intervals: vec![],
            result_format: ResultFormat::ValueVector,
            filter: None,
            columns: vec![],
            batch_size: 0,
            limit: None,
            ordering: None,
            context: StringMap::new(),
        }),
        Query::Search(Search {
            data_source: source(),
            granularity: Granularity::Unbucketed,
            filter: Some(Filter::True),
            limit: 9,
            intervals: vec!["i".into()],
            search_dimensions: vec!["a".into()],
            query: SearchQuerySpec::fragment(vec!["x", "y"], true),
            sort: Some(SortingOrder::Alphanumeric),
            context: map(&[("a", "b")]),
        }),
        Query::Search(Search {
            data_source: DataSource::table("t"),
            granularity: Granularity::All,
            filter: None,
            limit: 0,
            intervals: vec![],
            search_dimensions: vec![],
            query: SearchQuerySpec::regrex("^a"),
            sort: None,
            context: StringMap::new(),
        }),
        Query::TimeBoundary(TimeBoundary {
            data_source: source(),
            bound: TimeBoundType::MinMaxTime,
            filter: None,
            context: StringMap::new(),
        }),
        Query::TimeBoundary(TimeBoundary {
            data_source: source(),
            bound: TimeBoundType::MaxTime,
            filter: Some(Filter::True),
            context: map(&[("a", "b")]),
        }),
        Query::SegmentMetadata(SegmentMetadata {
            data_source: source(),
            intervals: vec!["i".into()],
            to_include: ToInclude::List { columns: vec!["a".into(), "b".into()] },
            merge: true,
            analysis_types: vec![],
            lenient_aggregator_merge: true,
        }),
        Query::SegmentMetadata(SegmentMetadata {
            data_source: source(),
            intervals: vec![],
            to_include: ToInclude::Nothing,
            merge: false,
            analysis_types: vec![AnalysisType::Size, AnalysisType::Size, AnalysisType::Rollup],
            lenient_aggregator_merge: false,
        }),
        Query::Timeseries(Timeseries {
            data_source: source(),
            granularity: Granularity::Month,
            descending: true,
            intervals: vec!["i".into()],
            filter: Some(Filter::True),
            aggregations: vec![Aggregation::count("n")],
            post_aggregations: vec![],
            limit: None,
            context: StringMap::new(),
        }),
    ]
}

#[test]
fn queries_round_trip() {
    for q in queries() {
        let wire = q.to_json();
        assert_eq!(Query::from_json(&wire).as_ref(), Some(&q));
        assert_eq!(Query::from_json(&through_text(&wire)), Some(q));
    }
}

#[test]
fn each_query_round_trips_in_its_own_type() {
    for q in queries() {
        match q {
            Query::TopN(q) => assert_eq!(TopN::from_json(&q.to_json()), Some(q)),
            Query::GroupBy(q) => assert_eq!(GroupBy::from_json(&q.to_json()), Some(q)),
            Query::Scan(q) => assert_eq!(Scan::from_json(&q.to_json()), Some(q)),
            Query::Search(q) => assert_eq!(Search::from_json(&q.to_json()), Some(q)),
            Query::TimeBoundary(q) => assert_eq!(TimeBoundary::from_json(&q.to_json()), Some(q)),
            Query::SegmentMetadata(q) => assert_eq!(SegmentMetadata::from_json(&q.to_json()), Some(q)),
            Query::Timeseries(q) => assert_eq!(Timeseries::from_json(&q.to_json()), Some(q)),
        }
    }
}

#[test]
fn a_query_without_a_known_tag_is_refused() {
    assert_eq!(Query::from_json(&parse(r#"{"queryType":"select"}"#).unwrap()), None);
    assert_eq!(Query::from_json(&parse(r#"{"dataSource":{"type":"table","name":"t"}}"#).unwrap()), None);
    assert_eq!(Query::from_json(&parse(r#"{"queryType":"topN"}"#).unwrap()), None);
    assert_eq!(Query::from_json(&parse(r#"[]"#).unwrap()), None);
    let scan_as_top_n = r#"{"queryType":"topN","dataSource":{"type":"table","name":"t"},"intervals":[],"resultFormat":"list","filter":null,"columns":[],"batchSize":1,"limit":null,"ordering":null,"context":{}}"#;
    assert_eq!(Query::from_json(&parse(scan_as_top_n).unwrap()), None);
}

#[test]
fn data_source_metadata_round_trips() {
    let q = DataSourceMetadata {
        data_source: DataSource::table("t"),
        context: map(&[("timeout", "1000")]),
    };
    let wire = q.to_json();
    assert_eq!(
        render(&wire).unwrap(),
        r#"{"queryType":"dataSourceMetadata","dataSource":{"type":"table","name":"t"},"context":{"timeout":"1000"}}"#
    );
    assert_eq!(DataSourceMetadata::from_json(&through_text(&wire)), Some(q));
}

#[test]
fn arithmetic_function_is_written_as_fn_and_read_from_both_names() {
    let p = PostAggregation::Arithmetic {
        name: "r".into(),
        function: "/".into(),
        fields: vec![],
        ordering: None,
    };
    let text = render(&p.to_json()).unwrap();
    assert_eq!(text, r#"{"type":"arithmetic","name":"r","fn":"/","fields":[],"ordering":null}"#);
    let other = r#"{"type":"arithmetic","name":"r","function":"/","fields":[],"ordering":null}"#;
    assert_eq!(PostAggregation::from_json(&parse(other).unwrap()), Some(p));
    assert_eq!(
        PostAggregation::from_json(&parse(r#"{"type":"arithmetic","name":"r","fields":[]}"#).unwrap()),
        None
    );
}

#[test]
fn other_wire_forms() {
    assert_eq!(render(&ToInclude::All.to_json()).unwrap(), r#"{"type":"all"}"#);
    assert_eq!(render(&ToInclude::Nothing.to_json()).unwrap(), r#"{"type":"none"}"#);
    assert_eq!(
        render(&ToInclude::List { columns: vec!["a".into()] }.to_json()).unwrap(),
        r#"{"type":"list","columns":["a"]}"#
    );
    assert_eq!(
        render(&SearchQuerySpec::constain("x", true).to_json()).unwrap(),
        r#"{"type":"contains","caseSensitive":true,"value":"x"}"#
    );
    assert_eq!(
        render(&SearchQuerySpec::fragment(vec!["x"], false).to_json()).unwrap(),
        r#"{"type":"fragment","caseSensitive":false,"values":["x"]}"#
    );
    assert_eq!(
        render(&SearchQuerySpec::regrex("^x").to_json()).unwrap(),
        r#"{"type":"regex","pattern":"^x"}"#
    );
    assert_eq!(
        render(&FilterQuerySpec::Contains { value: "x".into(), case_sensitive: false }.to_json()).unwrap(),
        r#"{"type":"contains","value":"x","caseSensitive":false}"#
    );
    assert_eq!(
        render(&HavingSpec::equal_to("a", 3isize.into()).to_json()).unwrap(),
        r#"{"type":"equalTo","aggregation":"a","value":3}"#
    );
    assert_eq!(
        render(&HavingSpec::Not { having_specs: Box::new(HavingSpec::filter(Filter::True)) }.to_json())
            .unwrap(),
        r#"{"type":"not","havingSpecs":{"type":"filter","filter":{"type":"true"}}}"#
    );
    assert_eq!(
        render(&PostAggregator::hyper_unique_cardinality("u").to_json()).unwrap(),
        r#"{"type":"hyperUniqueCardinality","fieldName":"u"}"#
    );
    assert_eq!(
        render(&PostAggregator::finalized_field_access("a", "b").to_json()).unwrap(),
        r#"{"type":"finalizingFieldAccess","name":"a","fieldName":"b"}"#
    );
    assert_eq!(
        render(&lookup_map().to_json()).unwrap(),
        r#"{"type":"map","map":{"a":"Alpha","b":"Beta"},"isOneToOne":true}"#
    );
}
