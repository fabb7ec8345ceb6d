use druid_io::query::definitions::{
    Aggregation, Dimension, Filter, Granularity, OutputType,
};
use druid_io::query::group_by::{GroupBy, GroupByBuilder, HavingSpec, LimitSpec, PostAggregation};
use druid_io::query::{DataSource, JoinBuilder, JoinType};
use druid_io::string_map::StringMap;

fn join(left: bool, right: bool, condition: bool) -> Option<DataSource> {
    let mut b = DataSource::join(JoinType::Left);
    if left {
        b = b.left(DataSource::table("l"));
    }
    if right {
        b = b.right(DataSource::lookup("r"), "r.");
    }
    if condition {
        b = b.condition("a == \"r.k\"");
    }
    b.build()
}

#[test]
fn join_builder_with_all_parts_gives_the_join() {
    assert_eq!(
        join(true, true, true),
        Some(DataSource::Join {
            left: Box::new(DataSource::table("l")),
            right: Box::new(DataSource::lookup("r")),
            right_prefix: "r.".to_string(),
            condition: "a == \"r.k\"".to_string(),
            join_type: JoinType::Left,
        })
    );
}

#[test]
fn join_builder_with_a_part_missing_gives_nothing() {
    assert_eq!(join(false, true, true), None);
    assert_eq!(join(true, false, true), None);
    assert_eq!(join(true, true, false), None);
    assert_eq!(join(false, false, true), None);
    assert_eq!(join(false, true, false), None);
    assert_eq!(join(true, false, false), None);
    assert_eq!(join(false, false, false), None);
}

#[test]
fn join_builder_is_empty_after_build() {
    let mut b = JoinBuilder::new(JoinType::Inner)
        .left(DataSource::table("l"))
        .right(DataSource::table("r"), "p")
        .condition("c");
    assert!(b.build().is_some());
    assert_eq!(b.build(), None);
    let mut refilled = b.left(DataSource::table("l2")).right(DataSource::table("r2"), "q").condition("d");
    assert_eq!(
        refilled.build(),
        Some(DataSource::Join {
            left: Box::new(DataSource::table("l2")),
            right: Box::new(DataSource::table("r2")),
            right_prefix: "q".to_string(),
            condition: "d".to_string(),
            join_type: JoinType::Inner,
        })
    );
    let mut partial = JoinBuilder::new(JoinType::Inner).left(DataSource::table("l"));
    assert_eq!(partial.build(), None);
    let mut rest = partial.right(DataSource::table("r"), "p").condition("c");
    assert_eq!(rest.build(), None);
}

#[test]
fn join_builder_keeps_the_last_part_given() {
    let mut b = JoinBuilder::new(JoinType::Inner)
        .left(DataSource::table("a"))
        .left(DataSource::table("b"))
        .right(DataSource::table("r"), "p")
        .right(DataSource::table("s"), "q")
        .condition("c")
        .condition("d");
    assert_eq!(
        b.build(),
        Some(DataSource::Join {
            left: Box::new(DataSource::table("b")),
            right: Box::new(DataSource::table("s")),
            right_prefix: "q".to_string(),
            condition: "d".to_string(),
            join_type: JoinType::Inner,
        })
    );
}

#[test]
fn group_by_builder_starts_empty() {
    let q = GroupByBuilder::new(DataSource::table("t")).build();
    assert_eq!(
        q,
        GroupBy {
            data_source: DataSource::table("t"),
            dimensions: vec![],
            limit_spec: None,
            having: None,
            granularity: Granularity::All,
            filter: None,
            aggregations: vec![],
            post_aggregations: vec![],
            intervals: vec![],
            subtotal_spec: vec![],
            context: StringMap::new(),
        }
    );
}

#[test]
fn group_by_builder_sets_each_part() {
    let mut context = StringMap::new();
    context.insert("a".to_string(), "1".to_string());
    let q = GroupByBuilder::new(DataSource::table("t"))
        .dimensions(vec![Dimension::default("d")])
        .limit(LimitSpec { limit: 3, columns: vec![] })
        .having(HavingSpec::filter(Filter::True))
        .granularity(Granularity::Day)
        .filter(Filter::selector("a", "b"))
        .aggregations(vec![Aggregation::count("n")])
        .post_aggregations(vec![PostAggregation::LongLeast { name: "l".into(), fields: vec![] }])
        .intervals(vec!["i", "j"])
        .subtotal_spec(vec![vec!["d".to_string()]])
        .context(context)
        .add_context("b", "2")
        .add_context("a", "3")
        .build();
    let mut expected_context = StringMap::new();
    expected_context.insert("a".to_string(), "3".to_string());
    expected_context.insert("b".to_string(), "2".to_string());
    assert_eq!(
        q,
        GroupBy {
            data_source: DataSource::table("t"),
            dimensions: vec![Dimension::Default {
                dimension: "d".into(),
                output_name: "d".into(),
                output_type: OutputType::STRING,
            }],
            limit_spec: Some(LimitSpec { limit: 3, columns: vec![] }),
            having: Some(HavingSpec::filter(Filter::True)),
            granularity: Granularity::Day,
            filter: Some(Filter::selector("a", "b")),
            aggregations: vec![Aggregation::count("n")],
            post_aggregations: vec![PostAggregation::LongLeast { name: "l".into(), fields: vec![] }],
            intervals: vec!["i".to_string(), "j".to_string()],
            subtotal_spec: vec![vec!["d".to_string()]],
            context: expected_context,
        }
    );
}

#[test]
fn string_map_keeps_order_and_replaces_in_place() {
    let mut m = StringMap::new();
    assert!(m.is_empty());
    assert_eq!(m.insert("b".to_string(), "1".to_string()), None);
    assert_eq!(m.insert("a".to_string(), "2".to_string()), None);
    assert_eq!(m.insert("b".to_string(), "3".to_string()), Some("1".to_string()));
    assert_eq!(m.len(), 2);
    assert!(!m.is_empty());
    assert_eq!(m.get("b"), Some(&"3".to_string()));
    assert_eq!(m.get("a"), Some(&"2".to_string()));
    assert_eq!(m.get("c"), None);
    assert_eq!(druid_io::text::render(&m.to_json()).unwrap(), r#"{"b":"3","a":"2"}"#);
    assert_eq!(StringMap::from_json(&m.to_json()), Some(m));
    assert_eq!(StringMap::default(), StringMap::new());
}

#[test]
fn string_map_reads_objects_of_strings_only() {
    let read = |text: &str| StringMap::from_json(&druid_io::text::parse(text).unwrap());
    assert_eq!(read("{}"), Some(StringMap::new()));
    assert!(read(r#"{"a":"b"}"#).is_some());
    assert_eq!(read(r#"{"a":1}"#), None);
    assert_eq!(read(r#"{"a":"b","c":null}"#), None);
    assert_eq!(read(r#"["a"]"#), None);
    assert_eq!(read(r#""a""#), None);
}
