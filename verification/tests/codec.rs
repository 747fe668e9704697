use buddy2api::codec::{json_of_value, parse_json, pretty_json, value_of_json};
use buddy2api::json::{Json, Member};
use serde_json::{Number, Value};

fn sample() -> Value {
    serde_json::from_str(
        r#"{"null": null, "yes": true, "no": false, "big": 18446744073709551615,
            "small": -9223372036854775808, "zero": 0, "float": 0.7, "exp": 1e300,
            "text": "文\n\"", "list": [1, [], {}, [null, {"a": {"b": [2.5]}}]], "": {"": ""}}"#,
    )
    .unwrap()
}

#[test]
fn values_survive_the_way_there_and_back() {
    let json = json_of_value(sample());
    assert_eq!(value_of_json(&json), sample());
    assert_eq!(json.clone(), json);
    assert_eq!(value_of_json(&json.clone()), sample());
}

#[test]
fn members_are_found_by_their_types() {
    let json = json_of_value(sample());
    assert_eq!(json.get("null"), Some(&Json::Null));
    assert_eq!(json.get("missing"), None);
    assert_eq!(json.get_bool("yes"), Some(true));
    assert_eq!(json.get_bool("text"), None);
    assert_eq!(json.get_str("text"), Some("文\n\""));
    assert_eq!(json.get_str("yes"), None);
    assert_eq!(json.get("big").unwrap().as_u64(), Some(u64::MAX));
    assert_eq!(json.get("zero").unwrap().as_u64(), Some(0));
    assert_eq!(json.get("small").unwrap().as_u64(), None);
    assert_eq!(json.get("float").unwrap().as_u64(), None);
    assert_eq!(json.get("text").unwrap().as_u64(), None);
    assert_eq!(json.get("list").unwrap().as_array().unwrap().len(), 4);
    assert_eq!(json.get("text").unwrap().as_array(), None);
    assert_eq!(Json::Null.get("x"), None);
    assert_eq!(json.get("list").unwrap().get("x"), None);
}

#[test]
fn of_two_members_with_one_key_the_later_counts() {
    let member = |key: &str, value: bool| Member { key: key.to_string(), value: Json::Bool(value) };
    let json = Json::Object(vec![member("a", true), member("b", true), member("a", false)]);
    assert_eq!(json.get_bool("a"), Some(false));
    let value = value_of_json(&json);
    assert_eq!(value["a"], Value::Bool(false));
    assert_eq!(value["b"], Value::Bool(true));
    assert_eq!(parse_json(r#"{"a": 1, "a": 2}"#).unwrap().get("a").unwrap().as_u64(), Some(2));

    let mut changed = json;
    changed.set("a", Json::Null);
    assert_eq!(changed.get("a"), Some(&Json::Null));
    assert_eq!(changed.get_bool("b"), Some(true));
}

#[test]
fn members_are_set_on_objects_and_on_nothing() {
    let json = Json::Null.with("a", Json::str("1")).with("b", Json::Null).with("a", Json::str("2"));
    assert_eq!(json.get_str("a"), Some("2"));
    assert_eq!(value_of_json(&json).to_string(), r#"{"a":"2","b":null}"#);
    assert_eq!(value_of_json(&Json::object()).to_string(), "{}");
    assert_eq!(
        value_of_json(&Json::strings(&vec!["x".to_string(), "y".to_string()])).to_string(),
        r#"["x","y"]"#
    );
    assert_eq!(value_of_json(&Json::array(vec![Json::Null])).to_string(), "[null]");
    assert_eq!(Json::optional_str(Some("s")), Json::str("s"));
    assert_eq!(Json::optional_str(None), Json::Null);
}

#[test]
fn texts_are_read_and_written() {
    assert_eq!(parse_json(" true "), Some(Json::Bool(true)));
    assert_eq!(parse_json("7"), Some(Json::Number(Number::from(7))));
    assert_eq!(parse_json(""), None);
    assert_eq!(parse_json("{"), None);
    assert_eq!(parse_json("{} {}"), None);
    assert_eq!(parse_json(&"[".repeat(200)), None);
    let json = parse_json(r#"{"b": [1.5], "a": false}"#).unwrap();
    assert_eq!(pretty_json(&json), "{\n  \"a\": false,\n  \"b\": [\n    1.5\n  ]\n}");
    assert_eq!(parse_json(&pretty_json(&json)), Some(json_of_value(value_of_json(&json))));
}

#[test]
fn flags_are_read_back_but_for_reserved_keys() {
    let flags = Json::object()
        .with("", Json::Bool(false))
        .with("a\"\\\n\u{0}", Json::Bool(true))
        .with("文", Json::Bool(true));
    let read = parse_json(&pretty_json(&flags)).unwrap();
    assert_eq!(value_of_json(&read), value_of_json(&flags));
    let reserved = Json::object().with("$serde_json::private::RawValue", Json::Bool(true));
    assert_eq!(parse_json(&pretty_json(&reserved)), None);
}
