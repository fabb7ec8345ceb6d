use druid_io::json::{same_text, Json, ObjectWriter};
use druid_io::text::{lift, lower, parse, render};

fn number(text: &str) -> serde_json::Number {
    match serde_json::from_str::<serde_json::Value>(text).unwrap() {
        serde_json::Value::Number(n) => n,
        _ => panic!("not a number"),
    }
}

#[test]
fn parse_reads_every_kind_of_value() {
    let value = parse(r#"{"a": null, "b": true, "c": 12, "d": -3, "e": 1.5, "f": "x", "g": [1, "y"]}"#)
        .unwrap();
    let expected = Json::Object(vec![
        ("a".to_string(), Json::Null),
        ("b".to_string(), Json::Bool(true)),
        ("c".to_string(), Json::Number(number("12"))),
        ("d".to_string(), Json::Number(number("-3"))),
        ("e".to_string(), Json::Number(number("1.5"))),
        ("f".to_string(), Json::Str("x".to_string())),
        (
            "g".to_string(),
            Json::Array(vec![Json::Number(number("1")), Json::Str("y".to_string())]),
        ),
    ]);
    assert_eq!(value, expected);
}

#[test]
fn parse_keeps_the_order_of_the_members() {
    let value = parse(r#"{"z": 1, "a": 2, "m": 3}"#).unwrap();
    match value {
        Json::Object(members) => {
            let names: Vec<&str> = members.iter().map(|m| m.0.as_str()).collect();
            assert_eq!(names, vec!["z", "a", "m"]);
        }
        _ => panic!("not an object"),
    }
}

#[test]
fn parse_fails_on_what_is_not_json() {
    assert!(parse("").is_err());
    assert!(parse("{").is_err());
    assert!(parse("[1, 2").is_err());
    assert!(parse("{\"a\": }").is_err());
    assert!(parse("1 2").is_err());
    assert!(parse("nul").is_err());
}

#[test]
fn render_writes_compact_text_in_order() {
    let mut w = ObjectWriter::new();
    w.put("queryType", Json::text("topN"));
    w.put("threshold", Json::from_usize(10));
    w.put("offset", Json::from_isize(-4));
    w.put("flags", Json::Array(vec![Json::Bool(true), Json::Null]));
    w.put("names", Json::texts(&vec!["a".to_string(), "b".to_string()]));
    let text = render(&w.finish()).unwrap();
    assert_eq!(
        text,
        r#"{"queryType":"topN","threshold":10,"offset":-4,"flags":[true,null],"names":["a","b"]}"#
    );
}

#[test]
fn render_is_not_the_identity_on_its_argument() {
    let value = Json::Array(vec![Json::text("a\"b"), Json::from_usize(7)]);
    assert_eq!(render(&value).unwrap(), r#"["a\"b",7]"#);
    assert_eq!(render(&Json::Null).unwrap(), "null");
}

#[test]
fn render_then_parse_gives_the_value_back() {
    let text = r#"{"a":[1,2.5,{"b":null,"c":"d"}],"e":false,"f":-9007199254740993}"#;
    let value = parse(text).unwrap();
    assert_eq!(render(&value).unwrap(), text);
    assert_eq!(parse(&render(&value).unwrap()).unwrap(), value);
}

#[test]
fn a_name_written_twice_keeps_its_first_place_and_its_last_value() {
    let value = Json::Object(vec![
        ("a".to_string(), Json::from_usize(1)),
        ("b".to_string(), Json::from_usize(2)),
        ("a".to_string(), Json::from_usize(3)),
    ]);
    assert_eq!(render(&value).unwrap(), r#"{"a":3,"b":2}"#);
    let nested = Json::Array(vec![Json::Object(vec![
        ("x".to_string(), Json::Null),
        ("x".to_string(), Json::Bool(true)),
    ])]);
    assert_eq!(render(&nested).unwrap(), r#"[{"x":true}]"#);
    assert_eq!(parse(r#"{"a": 1, "b": 2, "a": 3}"#).unwrap(), parse(r#"{"a": 3, "b": 2}"#).unwrap());
}

#[test]
fn lift_and_lower_are_inverse_on_parsed_values() {
    let value: serde_json::Value =
        serde_json::from_str(r#"{"k":[1,-2,3.25,"s",true,null,{"n":{}}],"u":18446744073709551615}"#)
            .unwrap();
    let lifted = lift(&value);
    assert_eq!(lower(&lifted), value);
    match &lifted {
        Json::Object(members) => {
            assert_eq!(members.len(), 2);
            assert_eq!(members[0].0, "k");
            assert_eq!(members[1].1.as_usize(), Some(18446744073709551615usize));
        }
        _ => panic!("not an object"),
    }
}

#[test]
fn get_finds_the_first_member_of_that_name() {
    let value = Json::Object(vec![
        ("a".to_string(), Json::from_usize(1)),
        ("b".to_string(), Json::from_usize(2)),
        ("a".to_string(), Json::from_usize(3)),
    ]);
    assert_eq!(value.get("a"), Some(&Json::from_usize(1)));
    assert_eq!(value.get("b"), Some(&Json::from_usize(2)));
    assert_eq!(value.get("c"), None);
    assert_eq!(Json::text("a").get("a"), None);
    assert_eq!(Json::Array(vec![]).get("a"), None);
}

#[test]
fn get_optional_takes_null_for_absent() {
    let value = parse(r#"{"a": null, "b": 2}"#).unwrap();
    assert_eq!(value.get_optional("a"), None);
    assert_eq!(value.get_optional("c"), None);
    assert_eq!(value.get_optional("b"), Some(&Json::from_usize(2)));
}

#[test]
fn readers_of_scalars() {
    assert_eq!(Json::text("x").as_text(), Some("x".to_string()));
    assert_eq!(Json::Bool(true).as_text(), None);
    assert_eq!(Json::Bool(true).as_bool(), Some(true));
    assert_eq!(Json::Null.as_bool(), None);
    assert_eq!(Json::from_usize(5).as_usize(), Some(5));
    assert_eq!(Json::from_isize(-5).as_usize(), None);
    assert_eq!(Json::from_isize(-5).as_isize(), Some(-5));
    assert_eq!(Json::from_usize(usize::MAX).as_isize(), None);
    assert_eq!(Json::from_usize(usize::MAX).as_usize(), Some(usize::MAX));
    assert_eq!(Json::from_isize(isize::MIN).as_isize(), Some(isize::MIN));
    assert_eq!(parse("1.0").unwrap().as_usize(), None);
    assert_eq!(parse("1.0").unwrap().as_isize(), None);
    assert_eq!(parse("1e2").unwrap().as_usize(), None);
    assert_eq!(Json::text("1").as_usize(), None);
}

#[test]
fn readers_of_string_arrays() {
    let value = parse(r#"{"a": ["x", "y"], "b": ["x", 1], "c": [["p"], []], "d": [["p"], "q"], "e": []}"#)
        .unwrap();
    assert_eq!(value.texts_field("a"), Some(vec!["x".to_string(), "y".to_string()]));
    assert_eq!(value.texts_field("b"), None);
    assert_eq!(value.texts_field("zz"), None);
    assert_eq!(value.texts_field("e"), Some(vec![]));
    assert_eq!(value.text_rows_field("c"), Some(vec![vec!["p".to_string()], vec![]]));
    assert_eq!(value.text_rows_field("d"), None);
    assert_eq!(value.text_rows_field("a"), None);
    assert_eq!(value.array_field("b").map(|v| v.len()), Some(2));
    assert_eq!(value.array_field("zz"), None);
}

#[test]
fn readers_of_members() {
    let value = parse(r#"{"s": "x", "n": 3, "b": false, "z": null, "neg": -1}"#).unwrap();
    assert_eq!(value.text_field("s"), Some("x".to_string()));
    assert_eq!(value.text_field("n"), None);
    assert_eq!(value.text_field("missing"), None);
    assert_eq!(value.usize_field("n"), Some(3));
    assert_eq!(value.usize_field("neg"), None);
    assert_eq!(value.usize_field("z"), None);
    assert_eq!(value.bool_field("b"), Some(false));
    assert_eq!(value.bool_field("s"), None);
    assert_eq!(value.optional_text_field("s"), Some(Some("x".to_string())));
    assert_eq!(value.optional_text_field("z"), Some(None));
    assert_eq!(value.optional_text_field("missing"), Some(None));
    assert_eq!(value.optional_text_field("n"), None);
    assert_eq!(value.optional_usize_field("n"), Some(Some(3)));
    assert_eq!(value.optional_usize_field("z"), Some(None));
    assert_eq!(value.optional_usize_field("s"), None);
    assert_eq!(value.optional_bool_field("b"), Some(Some(false)));
    assert_eq!(value.optional_bool_field("missing"), Some(None));
    assert_eq!(value.optional_bool_field("n"), None);
    assert_eq!(value.field_duplicate("n"), Some(Json::from_usize(3)));
    assert_eq!(value.field_duplicate("missing"), None);
}

#[test]
fn writers_of_optional_values() {
    assert_eq!(Json::optional_text(&None), Json::Null);
    assert_eq!(Json::optional_text(&Some("a".to_string())), Json::text("a"));
    assert_eq!(Json::optional_usize(&None), Json::Null);
    assert_eq!(Json::optional_usize(&Some(4)), Json::from_usize(4));
    assert_eq!(
        render(&Json::text_rows(&vec![vec!["a".to_string()], vec![]])).unwrap(),
        r#"[["a"],[]]"#
    );
}

#[test]
fn duplicate_is_equal_and_separate() {
    let value = parse(r#"{"a": [1, {"b": "c"}], "d": 2.5}"#).unwrap();
    let copy = value.duplicate();
    assert_eq!(copy, value);
    drop(value);
    assert_eq!(render(&copy).unwrap(), r#"{"a":[1,{"b":"c"}],"d":2.5}"#);
}

#[test]
fn same_text_compares_the_text() {
    assert!(same_text("type", "type"));
    assert!(!same_text("type", "Type"));
    assert!(!same_text("type", "types"));
    assert!(same_text("", ""));
}
