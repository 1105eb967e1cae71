use mcp_imagemagick::json::{Json, JsonObject};
use mcp_imagemagick::transport::{Incoming, StdioTransport};
use mcp_imagemagick::McpImageError;

fn text(s: &str) -> Json {
    Json::Text(s.to_string())
}

fn read(line: &str) -> Json {
    match StdioTransport::read_message(line) {
        Incoming::Message(document) => document,
        other => panic!("no document: {:?}", other),
    }
}

#[test]
fn get_finds_a_member() {
    let object = Json::Object(vec![
        ("a".to_string(), Json::Bool(true)),
        ("b".to_string(), text("x")),
    ]);
    assert_eq!(object.get("a"), Some(&Json::Bool(true)));
    assert_eq!(object.get("b"), Some(&text("x")));
    assert_eq!(object.get("c"), None);
    assert_eq!(object.get(""), None);
}

#[test]
fn get_takes_the_last_of_two_equal_names() {
    let object = Json::Object(vec![
        ("a".to_string(), text("first")),
        ("a".to_string(), text("second")),
    ]);
    assert_eq!(object.get("a"), Some(&text("second")));
}

#[test]
fn get_finds_nothing_in_what_is_no_object() {
    assert_eq!(Json::Null.get("a"), None);
    assert_eq!(text("a").get("a"), None);
    assert_eq!(Json::Array(vec![text("a")]).get("a"), None);
    assert_eq!(Json::Number("1".to_string()).get("a"), None);
}

#[test]
fn as_str_reads_strings_only() {
    assert_eq!(text("abc").as_str(), Some("abc"));
    assert_eq!(Json::Number("1".to_string()).as_str(), None);
    assert_eq!(Json::Null.as_str(), None);
    assert_eq!(Json::Bool(true).as_str(), None);
}

#[test]
fn text_at_reads_a_string_member() {
    let object = Json::Object(vec![
        ("a".to_string(), text("x")),
        ("n".to_string(), Json::Number("1".to_string())),
    ]);
    assert_eq!(object.text_at("a"), Some("x"));
    assert_eq!(object.text_at("n"), None);
    assert_eq!(object.text_at("z"), None);
}

#[test]
fn is_null_tells_null_apart() {
    assert!(Json::Null.is_null());
    assert!(!Json::Bool(false).is_null());
    assert!(!text("").is_null());
    assert!(!Json::Object(vec![]).is_null());
}

#[test]
fn numbers_are_held_as_their_text() {
    assert_eq!(Json::integer(-32600), Json::Number("-32600".to_string()));
    assert_eq!(Json::integer(0), Json::Number("0".to_string()));
    assert_eq!(Json::unsigned(2), Json::Number("2".to_string()));
    assert_eq!(Json::unsigned(u64::MAX), Json::Number("18446744073709551615".to_string()));
}

#[test]
fn builder_keeps_the_order_of_its_members() {
    let built = JsonObject::new().with("b", Json::Bool(true)).with("a", Json::Null).build();
    assert_eq!(
        built,
        Json::Object(vec![("b".to_string(), Json::Bool(true)), ("a".to_string(), Json::Null)])
    );
    assert_eq!(JsonObject::new().build(), Json::Object(vec![]));
}

#[test]
fn clone_copies_the_whole_document() {
    let document = read("{\"a\":[1,{\"b\":null,\"c\":[true,\"x\",2.5]}],\"d\":{}}");
    let copy = document.clone();
    assert_eq!(copy, document);
    assert_eq!(
        copy.get("a"),
        Some(&Json::Array(vec![
            Json::Number("1".to_string()),
            Json::Object(vec![
                ("b".to_string(), Json::Null),
                (
                    "c".to_string(),
                    Json::Array(vec![Json::Bool(true), text("x"), Json::Number("2.5".to_string())])
                ),
            ]),
        ]))
    );
}

#[test]
fn parsing_reads_every_kind_of_document() {
    assert_eq!(read("null"), Json::Null);
    assert_eq!(read("true"), Json::Bool(true));
    assert_eq!(read("false"), Json::Bool(false));
    assert_eq!(read("12"), Json::Number("12".to_string()));
    assert_eq!(read("-3"), Json::Number("-3".to_string()));
    assert_eq!(read("1.5"), Json::Number("1.5".to_string()));
    assert_eq!(read("18446744073709551615"), Json::Number("18446744073709551615".to_string()));
    assert_eq!(read("\"a\\nb\""), text("a\nb"));
    assert_eq!(read("[]"), Json::Array(vec![]));
    assert_eq!(read("{}"), Json::Object(vec![]));
    assert_eq!(
        read("{\"b\":1,\"a\":2}"),
        Json::Object(vec![
            ("a".to_string(), Json::Number("2".to_string())),
            ("b".to_string(), Json::Number("1".to_string())),
        ])
    );
}

#[test]
fn writing_gives_compact_text_in_the_order_of_the_names() {
    let document = Json::Object(vec![
        ("b".to_string(), Json::Array(vec![Json::Null, Json::Bool(false)])),
        ("a".to_string(), text("x\ny \"z\"")),
        ("n".to_string(), Json::Number("-1.25".to_string())),
    ]);
    assert_eq!(
        StdioTransport::write_message(&document),
        Ok("{\"a\":\"x\\ny \\\"z\\\"\",\"b\":[null,false],\"n\":-1.25}\n".to_string())
    );
}

#[test]
fn writing_and_reading_give_the_document_back() {
    let line = "{\"id\":18446744073709551615,\"jsonrpc\":\"2.0\",\"params\":{\"k\":[1,2.5,-7,\"s\",null,true]}}";
    let document = read(line);
    let written = StdioTransport::write_message(&document).unwrap();
    assert_eq!(written, format!("{}\n", line));
    assert_eq!(read(&written), document);
}

#[test]
fn writing_agrees_with_serde_json() {
    let document = read("{\"z\":[1,{\"y\":\"\\u00e9\"}],\"a\":1e3}");
    let written = StdioTransport::write_message(&document).unwrap();
    let value: serde_json::Value = serde_json::from_str(&written).unwrap();
    assert_eq!(value["z"][0].as_i64(), Some(1));
    assert_eq!(value["z"][1]["y"].as_str(), Some("\u{e9}"));
    assert_eq!(value["a"].as_f64(), Some(1000.0));
    assert_eq!(format!("{}\n", serde_json::to_string(&value).unwrap()), written);
}

#[test]
fn a_number_that_is_none_cannot_be_written() {
    for text in ["twelve", "", "1 2", "0x10", "NaN"] {
        let inside = Json::Object(vec![(
            "a".to_string(),
            Json::Array(vec![Json::Null, Json::Number(text.to_string())]),
        )]);
        for document in [Json::Number(text.to_string()), inside] {
            match StdioTransport::write_message(&document) {
                Err(McpImageError::Mcp(detail)) => {
                    assert!(detail.starts_with("Failed to serialize JSON: "), "{}", detail)
                }
                other => panic!("written: {:?}", other),
            }
        }
    }
}

#[test]
fn a_number_that_was_read_is_held_as_it_is_displayed() {
    assert_eq!(read("1e2"), Json::Number("100.0".to_string()));
    assert_eq!(read("-0"), Json::Number("-0.0".to_string()));
    assert_eq!(read("10"), Json::Number("10".to_string()));
    assert_eq!(StdioTransport::write_message(&read("1e2")), Ok("100.0\n".to_string()));
}

#[test]
fn the_last_of_two_equal_names_is_the_one_written() {
    let document = Json::Object(vec![
        ("a".to_string(), text("first")),
        ("b".to_string(), Json::Null),
        ("a".to_string(), text("second")),
    ]);
    assert_eq!(document.get("a"), Some(&text("second")));
    assert_eq!(
        StdioTransport::write_message(&document),
        Ok("{\"a\":\"second\",\"b\":null}\n".to_string())
    );
    assert_eq!(read("{\"a\":1,\"a\":2}").get("a"), Some(&Json::Number("2".to_string())));
}
