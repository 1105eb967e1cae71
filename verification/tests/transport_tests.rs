use mcp_imagemagick::json::Json;
use mcp_imagemagick::transport::{
    make_error_response, make_success_response, Incoming, StdioTransport,
};

fn text(s: &str) -> Json {
    Json::Text(s.to_string())
}

fn number(s: &str) -> Json {
    Json::Number(s.to_string())
}

fn parse_error(data: &str) -> Incoming {
    Incoming::Unparsable(Json::Object(vec![
        (
            "error".to_string(),
            Json::Object(vec![
                ("code".to_string(), number("-32700")),
                ("data".to_string(), text(data)),
                ("message".to_string(), text("Parse error")),
            ]),
        ),
        ("id".to_string(), Json::Null),
        ("jsonrpc".to_string(), text("2.0")),
    ]))
}

#[test]
fn the_transport_can_be_made() {
    assert_eq!(StdioTransport::new(), StdioTransport);
}

#[test]
fn a_blank_line_holds_nothing() {
    assert_eq!(StdioTransport::read_message(""), Incoming::Blank);
    assert_eq!(StdioTransport::read_message("\n"), Incoming::Blank);
    assert_eq!(StdioTransport::read_message(" \t\r\n"), Incoming::Blank);
    assert_eq!(StdioTransport::read_message("\u{a0}\u{2003}"), Incoming::Blank);
}

#[test]
fn a_line_with_a_document_is_a_message() {
    assert_eq!(
        StdioTransport::read_message("  {\"jsonrpc\":\"2.0\",\"id\":1,\"method\":\"tools/list\"}\n"),
        Incoming::Message(Json::Object(vec![
            ("id".to_string(), number("1")),
            ("jsonrpc".to_string(), text("2.0")),
            ("method".to_string(), text("tools/list")),
        ]))
    );
    assert_eq!(StdioTransport::read_message("null\n"), Incoming::Message(Json::Null));
}

#[test]
fn a_line_without_a_document_is_a_parse_error() {
    assert_eq!(
        StdioTransport::read_message("hello\n"),
        parse_error("expected value at line 1 column 1; line: hello")
    );
    assert_eq!(
        StdioTransport::read_message("{\"a\":1} trailing"),
        parse_error("trailing characters at line 1 column 9; line: {\"a\":1} trailing")
    );
    assert_eq!(
        StdioTransport::read_message("{\"a\":"),
        parse_error("EOF while parsing a value at line 1 column 5; line: {\"a\":")
    );
}

#[test]
fn white_space_that_json_does_not_know_is_taken_off_first() {
    assert_eq!(
        StdioTransport::read_message("\u{a0}7\u{2028}"),
        Incoming::Message(number("7"))
    );
}

#[test]
fn a_message_is_written_on_one_line() {
    let response = make_success_response(number("1"), text("two\nlines"));
    let line = StdioTransport::write_message(&response).unwrap();
    assert_eq!(line, "{\"id\":1,\"jsonrpc\":\"2.0\",\"result\":\"two\\nlines\"}\n");
    assert_eq!(line.matches('\n').count(), 1);
    assert!(line.ends_with('\n'));
}

#[test]
fn responses_have_their_members() {
    assert_eq!(
        make_error_response(text("a"), -32601, "Method not found", "detail"),
        Json::Object(vec![
            (
                "error".to_string(),
                Json::Object(vec![
                    ("code".to_string(), number("-32601")),
                    ("data".to_string(), text("detail")),
                    ("message".to_string(), text("Method not found")),
                ]),
            ),
            ("id".to_string(), text("a")),
            ("jsonrpc".to_string(), text("2.0")),
        ])
    );
    assert_eq!(
        make_success_response(Json::Null, Json::Array(vec![])),
        Json::Object(vec![
            ("id".to_string(), Json::Null),
            ("jsonrpc".to_string(), text("2.0")),
            ("result".to_string(), Json::Array(vec![])),
        ])
    );
}

#[test]
fn what_is_written_can_be_read_again() {
    let response = make_error_response(Json::Null, -32700, "Parse error", "x \"y\" \\ z");
    let line = StdioTransport::write_message(&response).unwrap();
    assert_eq!(StdioTransport::read_message(&line), Incoming::Message(response));
}

#[test]
fn the_line_can_be_taken_from_the_detail_of_its_parse_error() {
    for line in ["{\"jsonrpc\": oops\n", "  [1,2  \r\n", "\u{a0}; line: x\t", "a\\b \"c\"\n"] {
        let response = match StdioTransport::read_message(line) {
            Incoming::Unparsable(response) => response,
            other => panic!("read: {:?}", other),
        };
        let data = response.get("error").and_then(|e| e.text_at("data")).unwrap();
        assert!(data.ends_with(line.trim()), "{:?}", data);
        assert!(data.contains("; line: "));
        assert_eq!(response.get("id"), Some(&Json::Null));
        assert_eq!(
            response.get("error").and_then(|e| e.get("code")),
            Some(&number("-32700"))
        );
        let written = StdioTransport::write_message(&response).unwrap();
        let value: serde_json::Value = serde_json::from_str(&written).unwrap();
        assert!(value["error"]["data"].as_str().unwrap().ends_with(line.trim()));
    }
}
