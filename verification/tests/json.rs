use issue_search::json::{json_from_text, Json};

fn text(s: &str) -> Json {
    Json::Text(s.to_string())
}

#[test]
fn scalars_are_read() {
    assert_eq!(json_from_text("null"), Some(Json::Null));
    assert_eq!(json_from_text("true"), Some(Json::Bool(true)));
    assert_eq!(json_from_text("false"), Some(Json::Bool(false)));
    assert_eq!(json_from_text(" \"a\\nb\\u00e9\" "), Some(text("a\nb\u{e9}")));
}

#[test]
fn integers_of_64_bits_are_kept() {
    assert_eq!(json_from_text("0"), Some(Json::Number(Some(0))));
    assert_eq!(json_from_text("-17"), Some(Json::Number(Some(-17))));
    assert_eq!(json_from_text("9223372036854775807"), Some(Json::Number(Some(i64::MAX))));
    assert_eq!(json_from_text("-9223372036854775808"), Some(Json::Number(Some(i64::MIN))));
}

#[test]
fn other_numbers_are_numbers_without_an_integer() {
    assert_eq!(json_from_text("9223372036854775808"), Some(Json::Number(None)));
    assert_eq!(json_from_text("1.0"), Some(Json::Number(None)));
    assert_eq!(json_from_text("2.5e3"), Some(Json::Number(None)));
    assert_eq!(json_from_text("-0.5"), Some(Json::Number(None)));
}

#[test]
fn arrays_keep_their_order() {
    assert_eq!(
        json_from_text("[3, \"x\", [], null]"),
        Some(Json::List(vec![Json::Number(Some(3)), text("x"), Json::List(vec![]), Json::Null]))
    );
}

#[test]
fn objects_hold_their_members() {
    let read = json_from_text(r#"{"b": {"c": [1]}, "a": "x"}"#).unwrap();
    assert_eq!(read.get("a"), Some(&text("x")));
    assert_eq!(
        read.get("b"),
        Some(&Json::Record(vec![("c".to_string(), Json::List(vec![Json::Number(Some(1))]))]))
    );
    assert_eq!(read.get("c"), None);
    match read {
        Json::Record(members) => assert_eq!(members.len(), 2),
        _ => panic!("no object"),
    }
}

#[test]
fn text_that_is_no_json_gives_nothing() {
    for bad in ["", "{", "[1,]", "{\"a\":}", "nul", "1 2", "{'a':1}", "\"open"] {
        assert_eq!(json_from_text(bad), None);
    }
}

#[test]
fn get_finds_the_first_member_of_that_key() {
    let doc = Json::Record(vec![
        ("a".to_string(), Json::Number(Some(1))),
        ("b".to_string(), Json::Number(Some(2))),
        ("a".to_string(), Json::Number(Some(3))),
    ]);
    assert_eq!(doc.get("a"), Some(&Json::Number(Some(1))));
    assert_eq!(doc.get("b"), Some(&Json::Number(Some(2))));
    assert_eq!(doc.get(""), None);
    assert_eq!(doc.get("ab"), None);
}

#[test]
fn get_on_what_is_no_object_finds_nothing() {
    assert_eq!(Json::List(vec![text("a")]).get("a"), None);
    assert_eq!(text("a").get("a"), None);
    assert_eq!(Json::Null.get("a"), None);
}

#[test]
fn accessors_give_what_the_value_holds() {
    assert_eq!(text("open").as_str(), Some("open"));
    assert_eq!(Json::Null.as_str(), None);
    assert_eq!(Json::Number(Some(5)).as_str(), None);
    assert_eq!(Json::Number(Some(-5)).as_i64(), Some(-5));
    assert_eq!(Json::Number(None).as_i64(), None);
    assert_eq!(text("5").as_i64(), None);
    assert_eq!(Json::List(vec![Json::Null]).as_array(), Some(&vec![Json::Null]));
    assert_eq!(Json::Record(vec![]).as_array(), None);
}
