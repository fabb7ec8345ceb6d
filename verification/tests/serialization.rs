use druid_io::json::Json;
use druid_io::serialization::{default_for_null, lower_tag, raw_tag, tagged_or_untagged, Tag};
use druid_io::text::parse;

#[derive(Debug, PartialEq, Eq)]
enum Tagged {
    One,
    Two,
}

impl Default for Tagged {
    fn default() -> Self {
        Tagged::One
    }
}

fn tagged(tag: Option<Tag>) -> Option<Tagged> {
    match tag {
        Some(Tag::Given(name)) => match name.as_str() {
            "one" => Some(Tagged::One),
            "two" => Some(Tagged::Two),
            _ => None,
        },
        Some(Tag::Unit) => Some(Tagged::default()),
        None => None,
    }
}

fn field(text: &str) -> Json {
    let value = parse(text).unwrap();
    value.get("field").unwrap().duplicate()
}

#[test]
fn test_default_for_null() {
    let str = r#"
            {
                "field": null
            }
       "#;
    let value = parse(str).unwrap();
    let empty = Json::Array(Vec::new());
    let field = default_for_null(value.get("field"), &empty).as_texts();
    assert!(field.unwrap().is_empty())
}

#[test]
fn test_taggedd() {
    let str = r#"
            {
                "field": "One"
            }
       "#;

    let test_struct = tagged(tagged_or_untagged(Some(&field(str))));
    assert_eq!(test_struct.unwrap(), Tagged::One)
}

#[test]
fn test_untagged() {
    let str = r#"
            {
                "field": {"type": "Two"}
            }
       "#;

    let test_struct = tagged(tagged_or_untagged(Some(&field(str))));
    assert_eq!(test_struct.unwrap(), Tagged::Two)
}

#[test]
fn default_for_null_keeps_what_is_there() {
    let empty = Json::Array(Vec::new());
    let given = Json::Array(vec![Json::text("a"), Json::text("b")]);
    assert_eq!(default_for_null(Some(&given), &empty), &given);
    assert_eq!(default_for_null(Some(&Json::Null), &empty), &empty);
    assert_eq!(default_for_null(None, &empty), &empty);
    let wrong = Json::Bool(true);
    assert_eq!(default_for_null(Some(&wrong), &empty), &wrong);
}

#[test]
fn absent_member_reads_as_default_too() {
    let value = parse("{}").unwrap();
    let empty = Json::Array(Vec::new());
    let field = default_for_null(value.get("field"), &empty).as_texts();
    assert_eq!(field, Some(Vec::new()));
}

#[test]
fn raw_tag_of_a_string_is_the_string_as_written() {
    assert_eq!(raw_tag(Some(&Json::text("One"))), Some(Tag::Given("One".to_string())));
}

#[test]
fn raw_tag_of_null_is_the_unit() {
    assert_eq!(raw_tag(Some(&Json::Null)), Some(Tag::Unit));
    assert_eq!(tagged(tagged_or_untagged(Some(&Json::Null))), Some(Tagged::One));
}

#[test]
fn a_member_that_is_not_there_gives_the_unit() {
    let value = parse("{}").unwrap();
    assert_eq!(raw_tag(value.get("field")), Some(Tag::Unit));
    assert_eq!(tagged(tagged_or_untagged(value.get("field"))), Some(Tagged::One));
    assert_eq!(tagged_or_untagged(None), Some(Tag::Unit));
}

#[test]
fn raw_tag_of_an_object_is_its_first_type_member() {
    let value = parse(r#"{"a": "x", "type": "Two", "type2": "One"}"#).unwrap();
    assert_eq!(raw_tag(Some(&value)), Some(Tag::Given("Two".to_string())));
}

#[test]
fn object_without_type_gives_no_tag() {
    let value = parse(r#"{"a": "x", "b": "y"}"#).unwrap();
    assert_eq!(raw_tag(Some(&value)), None);
    assert_eq!(raw_tag(Some(&parse("{}").unwrap())), None);
}

#[test]
fn member_that_is_not_a_string_gives_no_tag() {
    let before = parse(r#"{"a": 1, "type": "Two"}"#).unwrap();
    assert_eq!(raw_tag(Some(&before)), None);
    let itself = parse(r#"{"type": 2}"#).unwrap();
    assert_eq!(raw_tag(Some(&itself)), None);
    let after = parse(r#"{"type": "Two", "a": 1}"#).unwrap();
    assert_eq!(raw_tag(Some(&after)), Some(Tag::Given("Two".to_string())));
}

#[test]
fn other_values_give_no_tag() {
    assert_eq!(raw_tag(Some(&Json::Bool(true))), None);
    assert_eq!(raw_tag(Some(&Json::from_usize(1))), None);
    assert_eq!(raw_tag(Some(&Json::Array(vec![Json::text("One")]))), None);
    assert_eq!(tagged_or_untagged(Some(&Json::Bool(false))), None);
}

#[test]
fn lower_tag_lowers_the_text_and_nothing_else() {
    assert_eq!(
        lower_tag(Some(Tag::Given("MinMaxTIME".to_string()))),
        Some(Tag::Given("minmaxtime".to_string()))
    );
    assert_eq!(lower_tag(Some(Tag::Unit)), Some(Tag::Unit));
    assert_eq!(lower_tag(None), None);
}
