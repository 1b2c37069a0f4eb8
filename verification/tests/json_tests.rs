use asimov_readwise_module::json::Json;
use asimov_readwise_module::json::JsonError;
use asimov_readwise_module::json::Member;

fn text(s: &str) -> Json {
    Json::Text(s.to_string())
}

fn object(members: Vec<(&str, Json)>) -> Json {
    Json::Object(
        members.into_iter().map(|(key, value)| Member { key: key.to_string(), value }).collect(),
    )
}

#[test]
fn parse_reads_every_kind_of_value() {
    assert_eq!(Json::parse("null").unwrap(), Json::Null);
    assert_eq!(Json::parse("true").unwrap(), Json::Bool(true));
    assert_eq!(Json::parse("0").unwrap(), Json::Unsigned(0));
    assert_eq!(Json::parse("18446744073709551615").unwrap(), Json::Unsigned(u64::MAX));
    assert_eq!(Json::parse("-5").unwrap(), Json::Signed(-5));
    assert_eq!(Json::parse("\"a\\nb\"").unwrap(), text("a\nb"));
    assert_eq!(
        Json::parse(" [1, \"x\", [], {}] ").unwrap(),
        Json::Array(vec![Json::Unsigned(1), text("x"), Json::Array(vec![]), object(vec![])])
    );
    assert!(matches!(Json::parse("1.5").unwrap(), Json::Real(_)));
}

#[test]
fn parse_gives_members_in_the_order_of_the_text() {
    assert_eq!(
        Json::parse("{\"b\": 1, \"a\": {\"z\": null, \"y\": false}}").unwrap(),
        object(vec![
            ("b", Json::Unsigned(1)),
            ("a", object(vec![("z", Json::Null), ("y", Json::Bool(false))])),
        ])
    );
}

#[test]
fn parse_refuses_what_is_no_json() {
    assert!(matches!(Json::parse(""), Err(JsonError::Unreadable(_))));
    assert!(matches!(Json::parse("{"), Err(JsonError::Unreadable(_))));
    assert!(Json::parse("[1,]").is_err());
    assert!(Json::parse("1 2").is_err());
    assert!(Json::parse("nul").is_err());
}

#[test]
fn to_text_writes_compact_json() {
    assert_eq!(Json::Null.to_text().unwrap(), "null");
    assert_eq!(Json::Bool(false).to_text().unwrap(), "false");
    assert_eq!(Json::Unsigned(42).to_text().unwrap(), "42");
    assert_eq!(Json::Signed(-42).to_text().unwrap(), "-42");
    assert_eq!(Json::Signed(42).to_text().unwrap(), "42");
    assert_eq!(text("a\"b\n").to_text().unwrap(), "\"a\\\"b\\n\"");
    assert_eq!(
        Json::Array(vec![Json::Unsigned(1), Json::Null, text("x")]).to_text().unwrap(),
        "[1,null,\"x\"]"
    );
    assert_eq!(
        object(vec![("name", text("rust")), ("id", Json::Unsigned(7))]).to_text().unwrap(),
        "{\"name\":\"rust\",\"id\":7}"
    );
    assert_eq!(Json::parse("1.5").unwrap().to_text().unwrap(), "1.5");
}

#[test]
fn to_text_keeps_the_later_of_two_members_of_one_key() {
    let document = object(vec![("k", Json::Unsigned(1)), ("k", Json::Unsigned(2))]);
    assert_eq!(document.to_text().unwrap(), "{\"k\":2}");
}

#[test]
fn text_read_back_is_the_document_written() {
    let document = object(vec![
        ("a", Json::Array(vec![Json::Signed(-1), Json::Unsigned(2), text("\u{e9}")])),
        ("b", object(vec![("c", Json::Null)])),
    ]);
    let written = document.to_text().unwrap();
    assert_eq!(written, "{\"a\":[-1,2,\"\u{e9}\"],\"b\":{\"c\":null}}");
    assert_eq!(Json::parse(&written).unwrap(), document);
}

#[test]
fn get_finds_members_of_objects_only() {
    let document = object(vec![("a", Json::Unsigned(1)), ("b", Json::Null)]);
    assert_eq!(document.get("a"), Some(&Json::Unsigned(1)));
    assert_eq!(document.get("b"), Some(&Json::Null));
    assert_eq!(document.get("c"), None);
    assert_eq!(document.get(""), None);
    assert_eq!(document.get("A"), None);
    assert_eq!(Json::Array(vec![]).get("a"), None);
    assert_eq!(Json::Null.get("a"), None);
}

#[test]
fn get_takes_the_later_of_two_members_of_one_key() {
    let document = object(vec![("k", Json::Unsigned(1)), ("k", Json::Unsigned(2))]);
    assert_eq!(document.get("k"), Some(&Json::Unsigned(2)));
}

#[test]
fn accessors_tell_the_kinds_apart() {
    assert_eq!(Json::Array(vec![Json::Null]).as_array(), Some(&vec![Json::Null]));
    assert_eq!(object(vec![]).as_array(), None);
    assert_eq!(text("x").as_str(), Some("x"));
    assert_eq!(Json::Unsigned(1).as_str(), None);
    assert_eq!(Json::Unsigned(9).as_u64(), Some(9));
    assert_eq!(Json::Signed(9).as_u64(), Some(9));
    assert_eq!(Json::Signed(0).as_u64(), Some(0));
    assert_eq!(Json::Signed(-1).as_u64(), None);
    assert_eq!(text("9").as_u64(), None);
    assert_eq!(Json::parse("9.0").unwrap().as_u64(), None);
    assert!(Json::Null.is_null());
    assert!(!Json::Bool(false).is_null());
}

#[test]
fn duplicate_and_clone_copy_the_whole_tree() {
    let document = object(vec![
        ("a", Json::Array(vec![Json::Signed(-1), Json::parse("2.5").unwrap()])),
        ("b", object(vec![("c", text("d"))])),
    ]);
    assert_eq!(document.duplicate(), document);
    assert_eq!(document.clone(), document);
    let member = Member { key: "k".to_string(), value: document.duplicate() };
    assert_eq!(member.clone(), member);
}
