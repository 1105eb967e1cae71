//! The framing of messages: one JSON document on each line.

use crate::error::{Failure, McpImageError};
use crate::json::{
    get_after_with, parse, parse_outcome, render, render_outcome, Json, JsonObject, JsonValue,
};
use crate::text::{ends_with, join, push_char, trim, trimmed};
use vstd::string::StringExecFns;
use vstd::prelude::*;

verus! {

/// What a line of input was read as.
#[derive(Debug, PartialEq, Eq)]
pub enum Incoming {
    /// The line holds nothing but white space.
    Blank,
    /// The line holds this document.
    Message(Json),
    /// The line holds no document; this is the response that says so.
    Unparsable(Json),
}

/// The mathematical value of an `Incoming`.
pub enum IncomingView {
    Blank,
    Message(JsonValue),
    Unparsable(JsonValue),
}

impl View for Incoming {
    type V = IncomingView;

    open spec fn view(&self) -> IncomingView {
        match self {
            Incoming::Blank => IncomingView::Blank,
            Incoming::Message(m) => IncomingView::Message(m@),
            Incoming::Unparsable(r) => IncomingView::Unparsable(r@),
        }
    }
}

/// The response that reports a failure.  The detail goes into `data`.
pub open spec fn error_response(
    id: JsonValue,
    code: int,
    message: Seq<char>,
    data: Seq<char>,
) -> JsonValue {
    JsonValue::object().with(
        "error"@,
        JsonValue::object().with("code"@, JsonValue::integer(code)).with(
            "data"@,
            JsonValue::Text(data),
        ).with("message"@, JsonValue::Text(message)),
    ).with("id"@, id).with("jsonrpc"@, JsonValue::Text("2.0"@))
}

/// The response that carries a result.
pub open spec fn success_response(id: JsonValue, result: JsonValue) -> JsonValue {
    JsonValue::object().with("id"@, id).with("jsonrpc"@, JsonValue::Text("2.0"@)).with(
        "result"@,
        result,
    )
}

/// The code of an error response, where the document is one.
pub open spec fn error_code_of(response: JsonValue) -> Option<JsonValue> {
    match response.get("error"@) {
        Some(error) => error.get("code"@),
        None => None,
    }
}

/// The detail of an error response, where the document is one.
pub open spec fn error_data_of(response: JsonValue) -> Option<JsonValue> {
    match response.get("error"@) {
        Some(error) => error.get("data"@),
        None => None,
    }
}

/// The detail of a parse error: the parser's complaint, and behind it the
/// line that it could not read.
pub open spec fn parse_error_data(why: Seq<char>, text: Seq<char>) -> Seq<char> {
    why + "; line: "@ + text
}

/// What a line of input is read as, once the white space round it is taken
/// off: nothing where nothing is left, the document where the parser reads
/// one, and else the response that reports a parse error, with `null` for
/// its `id`, and for its detail the parser's complaint and the line.
pub open spec fn decoded(line: Seq<char>) -> IncomingView {
    let text = trimmed(line);
    if text.len() == 0 {
        IncomingView::Blank
    } else {
        match parse_outcome(text) {
            Ok(document) => IncomingView::Message(document),
            Err(why) => IncomingView::Unparsable(
                error_response(
                    JsonValue::Null,
                    -32700,
                    "Parse error"@,
                    parse_error_data(why, text),
                ),
            ),
        }
    }
}

/// The text is one line: it ends in a line feed and holds no other.
pub open spec fn one_line(text: Seq<char>) -> bool {
    &&& text.len() > 0
    &&& text.last() == '\n'
    &&& !text.drop_last().contains('\n')
}

/// What a message is written as: its compact text and a line feed, or the
/// failure to make that text.
pub open spec fn encoded(message: JsonValue) -> Result<Seq<char>, Failure> {
    match render_outcome(message) {
        Ok(text) => Ok(text.push('\n')),
        Err(why) => Err(Failure::Mcp("Failed to serialize JSON: "@ + why)),
    }
}

/// The response that reports a failure.
pub fn make_error_response(id: Json, code: i64, message: &str, data: &str) -> (response: Json)
    ensures
        response@ == error_response(id@, code as int, message@, data@),
{
    let error = JsonObject::new().with("code", Json::integer(code)).with(
        "data",
        Json::text(data),
    ).with("message", Json::text(message)).build();
    JsonObject::new().with("error", error).with("id", id).with("jsonrpc", Json::text("2.0")).build()
}

/// The response that carries a result.
pub fn make_success_response(id: Json, result: Json) -> (response: Json)
    ensures
        response@ == success_response(id@, result@),
{
    JsonObject::new().with("id", id).with("jsonrpc", Json::text("2.0")).with(
        "result",
        result,
    ).build()
}

/// The transport of messages over the standard streams, a line for each.
#[derive(Debug, PartialEq, Eq)]
pub struct StdioTransport;

impl StdioTransport {
    /// The transport.  It holds nothing: the streams belong to the host.
    pub fn new() -> (transport: StdioTransport)
        ensures
            transport == StdioTransport,
    {
        StdioTransport
    }

    /// Reads one line of input as a message.
    pub fn read_message(line: &str) -> (incoming: Incoming)
        ensures
            incoming@ == decoded(line@),
            incoming@ matches IncomingView::Unparsable(response) ==> {
                &&& response.get("id"@) == Some(JsonValue::Null)
                &&& error_code_of(response) == Some(JsonValue::integer(-32700))
                &&& error_data_of(response) matches Some(JsonValue::Text(data)) && ends_with(
                    data,
                    trimmed(line@),
                )
            },
    {
        proof {
            if trimmed(line@).len() > 0 && parse_outcome(trimmed(line@)) is Err {
                unparsable_line_is_refused(line@);
            }
        }
        let text = trim(line);
        if text.as_str().is_empty() {
            return Incoming::Blank;
        }
        match parse(text.as_str()) {
            Ok(document) => Incoming::Message(document),
            Err(why) => {
                let mut data = why;
                data.append("; line: ");
                data.append(text.as_str());
                Incoming::Unparsable(
                    make_error_response(Json::Null, -32700, "Parse error", data.as_str()),
                )
            },
        }
    }

    /// Writes a message as one line of output: its compact text and a line
    /// feed.
    pub fn write_message(message: &Json) -> (r: Result<String, McpImageError>)
        ensures
            match r {
                Ok(line) => encoded(message@) == Ok::<Seq<char>, Failure>(line@) && one_line(
                    line@,
                ),
                Err(e) => encoded(message@) == Err::<Seq<char>, Failure>(e@),
            },
    {
        match render(message) {
            Ok(text) => {
                let mut line = text;
                push_char(&mut line, '\n');
                assert(line@.drop_last() =~= text@);
                Ok(line)
            },
            Err(why) => Err(McpImageError::Mcp(join("Failed to serialize JSON: ", why.as_str()))),
        }
    }
}

/// An error response holds its `id`, its code and its detail where a
/// reader looks for them.
pub proof fn error_response_reads(
    id: JsonValue,
    code: int,
    message: Seq<char>,
    data: Seq<char>,
)
    ensures
        error_response(id, code, message, data).get("id"@) == Some(id),
        error_response(id, code, message, data).get("jsonrpc"@) == Some(JsonValue::Text("2.0"@)),
        error_code_of(error_response(id, code, message, data)) == Some(JsonValue::integer(code)),
        error_data_of(error_response(id, code, message, data)) == Some(JsonValue::Text(data)),
        error_response(id, code, message, data).get("result"@) is None,
{
    reveal_strlit("error");
    reveal_strlit("id");
    reveal_strlit("jsonrpc");
    reveal_strlit("result");
    reveal_strlit("code");
    reveal_strlit("data");
    reveal_strlit("message");
    let error = JsonValue::object().with("code"@, JsonValue::integer(code)).with(
        "data"@,
        JsonValue::Text(data),
    ).with("message"@, JsonValue::Text(message));
    let first = JsonValue::object().with("error"@, error);
    let second = first.with("id"@, id);
    assert("error"@.len() == 5 && "id"@.len() == 2);
    assert("jsonrpc"@.len() == 7 && "result"@.len() == 6);
    assert("code"@.len() == 4 && "data"@.len() == 4 && "message"@.len() == 7);
    assert("code"@[0] == 'c' && "data"@[0] == 'd');
    assert("result"@[0] == 'r' && "error"@[0] == 'e');
    get_after_with(second, "jsonrpc"@, JsonValue::Text("2.0"@), "id"@);
    get_after_with(first, "id"@, id, "id"@);
    get_after_with(second, "jsonrpc"@, JsonValue::Text("2.0"@), "jsonrpc"@);
    get_after_with(second, "jsonrpc"@, JsonValue::Text("2.0"@), "error"@);
    get_after_with(first, "id"@, id, "error"@);
    get_after_with(JsonValue::object(), "error"@, error, "error"@);
    get_after_with(second, "jsonrpc"@, JsonValue::Text("2.0"@), "result"@);
    get_after_with(first, "id"@, id, "result"@);
    get_after_with(JsonValue::object(), "error"@, error, "result"@);
    let one = JsonValue::object().with("code"@, JsonValue::integer(code));
    let two = one.with("data"@, JsonValue::Text(data));
    get_after_with(two, "message"@, JsonValue::Text(message), "code"@);
    get_after_with(one, "data"@, JsonValue::Text(data), "code"@);
    get_after_with(JsonValue::object(), "code"@, JsonValue::integer(code), "code"@);
    get_after_with(two, "message"@, JsonValue::Text(message), "data"@);
    get_after_with(one, "data"@, JsonValue::Text(data), "data"@);
}

/// A response with a result holds its `id` and its result where a reader
/// looks for them, and no error.
pub proof fn success_response_reads(id: JsonValue, result: JsonValue)
    ensures
        success_response(id, result).get("id"@) == Some(id),
        success_response(id, result).get("jsonrpc"@) == Some(JsonValue::Text("2.0"@)),
        success_response(id, result).get("result"@) == Some(result),
        success_response(id, result).get("error"@) is None,
{
    reveal_strlit("error");
    reveal_strlit("id");
    reveal_strlit("jsonrpc");
    reveal_strlit("result");
    let first = JsonValue::object().with("id"@, id);
    let second = first.with("jsonrpc"@, JsonValue::Text("2.0"@));
    assert("error"@.len() == 5 && "id"@.len() == 2);
    assert("jsonrpc"@.len() == 7 && "result"@.len() == 6);
    get_after_with(second, "result"@, result, "result"@);
    get_after_with(second, "result"@, result, "jsonrpc"@);
    get_after_with(first, "jsonrpc"@, JsonValue::Text("2.0"@), "jsonrpc"@);
    get_after_with(second, "result"@, result, "id"@);
    get_after_with(first, "jsonrpc"@, JsonValue::Text("2.0"@), "id"@);
    get_after_with(JsonValue::object(), "id"@, id, "id"@);
    get_after_with(second, "result"@, result, "error"@);
    get_after_with(first, "jsonrpc"@, JsonValue::Text("2.0"@), "error"@);
    get_after_with(JsonValue::object(), "id"@, id, "error"@);
}

/// The line that could not be read is the ending of the detail of its
/// parse error, so that it can be taken from there.
pub proof fn line_ends_the_detail(why: Seq<char>, text: Seq<char>)
    ensures
        ends_with(parse_error_data(why, text), text),
        parse_error_data(why, text).len() >= text.len(),
{
    let data = parse_error_data(why, text);
    assert(data.subrange(data.len() - text.len(), data.len() as int) =~= text);
}

/// A line that holds something, but no document, is answered with a parse
/// error: the code is -32700, the `id` is `null`, and the detail is a
/// string that ends with the line as it stands without the white space
/// round it.
pub proof fn unparsable_line_is_refused(line: Seq<char>)
    requires
        trimmed(line).len() > 0,
        parse_outcome(trimmed(line)) is Err,
    ensures
        decoded(line) matches IncomingView::Unparsable(response) && {
            &&& response.get("id"@) == Some(JsonValue::Null)
            &&& error_code_of(response) == Some(JsonValue::integer(-32700))
            &&& error_data_of(response) matches Some(JsonValue::Text(data)) && {
                &&& data == parse_error_data(
                    parse_outcome(trimmed(line))->Err_0,
                    trimmed(line),
                )
                &&& ends_with(data, trimmed(line))
            }
        },
{
    let why = parse_outcome(trimmed(line))->Err_0;
    line_ends_the_detail(why, trimmed(line));
    error_response_reads(
        JsonValue::Null,
        -32700,
        "Parse error"@,
        parse_error_data(why, trimmed(line)),
    );
}

} // verus!
