//! The protocol engine: what the service answers to each message.
//!
//! The engine never reads, writes or runs anything.  [`McpImageServer::run`]
//! takes what the host saw last and says what the host must do next.

use crate::converters::registry::asked_in_order;
use crate::converters::{
    ends_in_dng, ConversionView, ProcessReport, ProcessReportView, Survey, SurveyView,
};
use crate::error::{Failure, McpImageError};
use crate::handlers::image::{
    check_tool_schema, convert_args, convert_tool_schema, known_handler,
    wrong_extension_fails_the_call, ConvertDngToWebpArgs, HandlerView, ImageHandler, PendingCall,
    PendingCallView, ToolOutcome, ToolOutcomeView,
};
use crate::json::{items_view, Json, JsonObject, JsonValue};
use crate::text::{contains, join, prefix_is_contained, same_text, str_contains};
use crate::transport::{
    error_code_of, error_data_of, error_response, error_response_reads, make_error_response,
    make_success_response, success_response, success_response_reads, Incoming, IncomingView,
};
use vstd::prelude::*;
use vstd::string::StringExecFns;

verus! {

/// A request that waits for the host to run a command line.
#[derive(Debug, PartialEq, Eq)]
pub struct PendingRequest {
    /// The `id` of the request, which its response repeats.
    pub id: Json,
    pub call: PendingCall,
}

/// The mathematical value of a `PendingRequest`.
pub struct PendingRequestView {
    pub id: JsonValue,
    pub call: PendingCallView,
}

impl View for PendingRequest {
    type V = PendingRequestView;

    open spec fn view(&self) -> PendingRequestView {
        PendingRequestView { id: self.id@, call: self.call@ }
    }
}

/// What the host saw last.
#[derive(Debug, PartialEq, Eq)]
pub enum Event {
    /// A line came in and was read as this.
    Received(Incoming),
    /// The input has ended, or could not be read.
    Closed,
    /// The command line of a pending request was run.
    Report(PendingRequest, ProcessReport),
}

/// The mathematical value of an `Event`.
pub enum EventView {
    Received(IncomingView),
    Closed,
    Report(PendingRequestView, ProcessReportView),
}

impl View for Event {
    type V = EventView;

    open spec fn view(&self) -> EventView {
        match self {
            Event::Received(i) => EventView::Received(i@),
            Event::Closed => EventView::Closed,
            Event::Report(p, r) => EventView::Report(p@, r@),
        }
    }
}

/// What the host must do next.
#[derive(Debug, PartialEq, Eq)]
pub enum Action {
    /// Read the next line; nothing is to be written.
    Continue,
    /// Write this message, then read the next line.
    Send(Json),
    /// Run the command line of this request, and report what came of it.
    Execute(PendingRequest),
    /// Stop.
    Stop,
}

/// The mathematical value of an `Action`.
pub enum ActionView {
    Continue,
    Send(JsonValue),
    Execute(PendingRequestView),
    Stop,
}

impl View for Action {
    type V = ActionView;

    open spec fn view(&self) -> ActionView {
        match self {
            Action::Continue => ActionView::Continue,
            Action::Send(m) => ActionView::Send(m@),
            Action::Execute(p) => ActionView::Execute(p@),
            Action::Stop => ActionView::Stop,
        }
    }
}

/// The code that a failure is reported under: a protocol failure that
/// speaks of a method not found or of invalid params has the code for that,
/// and every other failure is an internal error.
pub open spec fn error_code(e: Failure) -> int {
    match e {
        Failure::Mcp(detail) => if contains(detail, "Method not found"@) {
            -32601
        } else if contains(detail, "Invalid params"@) {
            -32602
        } else {
            -32603
        },
        _ => -32603,
    }
}

/// The words that go with an error code.
pub open spec fn error_message(e: Failure) -> Seq<char> {
    match e {
        Failure::Mcp(detail) => if contains(detail, "Method not found"@) {
            "Method not found"@
        } else if contains(detail, "Invalid params"@) {
            "Invalid params"@
        } else {
            "Internal error"@
        },
        _ => "Internal error"@,
    }
}

/// The result of `initialize`.
pub open spec fn initialize_result() -> JsonValue {
    JsonValue::object().with(
        "capabilities"@,
        JsonValue::object().with("tools"@, JsonValue::object()),
    ).with("protocolVersion"@, JsonValue::Text("2024-11-05"@)).with(
        "serverInfo"@,
        JsonValue::object().with("name"@, JsonValue::Text("mcp-imagemagick"@)).with(
            "version"@,
            JsonValue::Text("0.1.0"@),
        ),
    )
}

/// The result of `tools/list`: the two tools.
pub open spec fn tools_list_result() -> JsonValue {
    JsonValue::object().with(
        "tools"@,
        JsonValue::Array(seq![convert_tool_schema(), check_tool_schema()]),
    )
}

/// A member of a document, or the empty object where the member is absent.
pub open spec fn member_or_empty(document: JsonValue, key: Seq<char>) -> JsonValue {
    match document.get(key) {
        Some(v) => v,
        None => JsonValue::object(),
    }
}

/// The envelope of a request is valid: it names version 2.0 and has an
/// `id` that is not `null`.
pub open spec fn valid_envelope(message: JsonValue) -> bool {
    &&& message.text_at("jsonrpc"@) == Some("2.0"@)
    &&& message.get("id"@) is Some
    &&& !(message.get("id"@) == Some(JsonValue::Null))
}

/// The `id` of a request, or `null` where it has none.
pub open spec fn id_or_null(message: JsonValue) -> JsonValue {
    match message.get("id"@) {
        Some(id) => id,
        None => JsonValue::Null,
    }
}

/// What comes of `tools/call` with the given `params`.
pub open spec fn called(
    handler: HandlerView,
    params: JsonValue,
    survey: SurveyView,
) -> ToolOutcomeView {
    match params.text_at("name"@) {
        None => ToolOutcomeView::Finished(
            Err(Failure::Mcp("Invalid params: missing tool name"@)),
        ),
        Some(name) => handler.call(name, member_or_empty(params, "arguments"@), survey),
    }
}

/// What comes of a request with a valid envelope, by its method.
pub open spec fn dispatched(
    handler: HandlerView,
    message: JsonValue,
    survey: SurveyView,
) -> ToolOutcomeView {
    match message.text_at("method"@) {
        None => ToolOutcomeView::Finished(Err(Failure::Mcp("Missing method"@))),
        Some(method) => if method == "initialize"@ {
            ToolOutcomeView::Finished(Ok(initialize_result()))
        } else if method == "tools/list"@ {
            ToolOutcomeView::Finished(Ok(tools_list_result()))
        } else if method == "tools/call"@ {
            called(handler, member_or_empty(message, "params"@), survey)
        } else {
            ToolOutcomeView::Finished(Err(Failure::Mcp("Method not found: "@ + method)))
        },
    }
}

/// What the host must do about a request once its outcome is known.
pub open spec fn answered(id: JsonValue, outcome: ToolOutcomeView) -> ActionView {
    match outcome {
        ToolOutcomeView::Finished(Ok(result)) => ActionView::Send(success_response(id, result)),
        ToolOutcomeView::Finished(Err(e)) => ActionView::Send(
            error_response(id, error_code(e), error_message(e), e.text()),
        ),
        ToolOutcomeView::Pending(call) => ActionView::Execute(PendingRequestView { id, call }),
    }
}

/// What the host must do about a message: a request with an invalid
/// envelope is refused unserved, and any other is answered by its method.
pub open spec fn handled(
    handler: HandlerView,
    message: JsonValue,
    survey: SurveyView,
) -> ActionView {
    if message.text_at("jsonrpc"@) != Some("2.0"@) {
        ActionView::Send(
            error_response(
                id_or_null(message),
                -32600,
                "Invalid Request"@,
                "Missing or invalid jsonrpc version"@,
            ),
        )
    } else if !valid_envelope(message) {
        ActionView::Send(
            error_response(JsonValue::Null, -32600, "Invalid Request"@, "Missing or null id"@),
        )
    } else {
        answered(id_or_null(message), dispatched(handler, message, survey))
    }
}

/// What the host must do after it ran the command line of a request.
pub open spec fn resumed(
    handler: HandlerView,
    pending: PendingRequestView,
    report: ProcessReportView,
    survey: SurveyView,
) -> ActionView {
    answered(pending.id, handler.call_resumed(pending.call, report, survey))
}

/// What the host must do after an event: stop at the end of the input,
/// pass over a blank line, send the refusal of a line that holds no
/// document, and serve everything else.
pub open spec fn stepped(
    handler: HandlerView,
    event: EventView,
    survey: SurveyView,
) -> ActionView {
    match event {
        EventView::Closed => ActionView::Stop,
        EventView::Received(IncomingView::Blank) => ActionView::Continue,
        EventView::Received(IncomingView::Unparsable(response)) => ActionView::Send(response),
        EventView::Received(IncomingView::Message(message)) => handled(handler, message, survey),
        EventView::Report(pending, report) => resumed(handler, pending, report, survey),
    }
}

/// The event is one whose step depends on what the host looks like: a call
/// of a tool, or the report on a command line.
pub open spec fn depends_on_host(event: EventView) -> bool {
    match event {
        EventView::Received(IncomingView::Message(message)) => message.text_at("method"@) == Some(
            "tools/call"@,
        ),
        EventView::Report(_, _) => true,
        _ => false,
    }
}

/// The path whose existence an event depends on: the input of the
/// conversion that it asks for or goes on with, else the empty path.
pub open spec fn surveyed_path(event: EventView) -> Seq<char> {
    match event {
        EventView::Received(IncomingView::Message(message)) => match convert_args(
            member_or_empty(member_or_empty(message, "params"@), "arguments"@),
        ) {
            Ok(args) => args.input_path,
            Err(_) => Seq::empty(),
        },
        EventView::Received(_) => Seq::empty(),
        EventView::Closed => Seq::empty(),
        EventView::Report(pending, _) => pending.call.args.input_path,
    }
}

/// The action is to send an error response with this code.
pub open spec fn refuses_with(action: ActionView, code: int) -> bool {
    action matches ActionView::Send(response) && error_code_of(response) == Some(
        JsonValue::integer(code),
    )
}

/// The action is to send a response with this `id`.
pub open spec fn answers_to(action: ActionView, id: JsonValue) -> bool {
    action matches ActionView::Send(response) && response.get("id"@) == Some(id)
}

/// The method of the message is none of the three that the service knows.
pub open spec fn unknown_method(message: JsonValue) -> bool {
    message.text_at("method"@) matches Some(method) && method != "initialize"@ && method
        != "tools/list"@ && method != "tools/call"@
}

fn classify(e: &McpImageError) -> (r: (i64, &'static str))
    ensures
        r.0 == error_code(e@),
        r.1@ == error_message(e@),
{
    match e {
        McpImageError::Mcp(detail) => {
            if str_contains(detail.as_str(), "Method not found") {
                (-32601, "Method not found")
            } else if str_contains(detail.as_str(), "Invalid params") {
                (-32602, "Invalid params")
            } else {
                (-32603, "Internal error")
            }
        },
        _ => (-32603, "Internal error"),
    }
}

fn take_or_empty(document: &Json, key: &str) -> (found: Json)
    ensures
        found@ == member_or_empty(document@, key@),
{
    match document.get(key) {
        Some(v) => v.clone(),
        None => JsonObject::new().build(),
    }
}

fn answer(id: Json, outcome: ToolOutcome) -> (action: Action)
    ensures
        action@ == answered(id@, outcome@),
{
    match outcome {
        ToolOutcome::Finished(Ok(result)) => Action::Send(make_success_response(id, result)),
        ToolOutcome::Finished(Err(e)) => {
            let (code, message) = classify(&e);
            let data = e.to_string();
            Action::Send(make_error_response(id, code, message, data.as_str()))
        },
        ToolOutcome::Pending(call) => Action::Execute(PendingRequest { id, call }),
    }
}

/// The service: it answers requests for the two image tools.
#[derive(Debug, PartialEq, Eq)]
pub struct McpImageServer {
    handler: ImageHandler,
}

impl View for McpImageServer {
    type V = HandlerView;

    closed spec fn view(&self) -> HandlerView {
        self.handler@
    }
}

impl McpImageServer {
    /// The service of the two known converters.
    pub fn new() -> (server: McpImageServer)
        ensures
            known_handler(server@),
    {
        McpImageServer { handler: ImageHandler::new() }
    }

    /// The service around the given handler.
    pub fn with_handler(handler: ImageHandler) -> (server: McpImageServer)
        ensures
            server@ == handler@,
    {
        McpImageServer { handler }
    }

    /// Looks at the host for what `event` depends on, and not at all where
    /// the step after `event` is the same on every host.
    pub fn survey(&self, event: &Event) -> (survey: Survey)
        ensures
            survey@.registry.len() == self@.registry.len(),
            survey@.input_path == surveyed_path(event@),
    {
        proof {
            reveal_strlit("");
            assert(""@ =~= Seq::<char>::empty());
        }
        match event {
            Event::Received(Incoming::Message(message)) => {
                let params = take_or_empty(message, "params");
                let arguments = take_or_empty(&params, "arguments");
                let path = match ConvertDngToWebpArgs::from_json(&arguments) {
                    Ok(args) => args.input_path,
                    Err(_) => String::new(),
                };
                let calls = match message.text_at("method") {
                    Some(method) => same_text(method, "tools/call"),
                    None => false,
                };
                if calls {
                    self.handler.survey(path.as_str())
                } else {
                    self.handler.unsurveyed(path.as_str())
                }
            },
            Event::Report(pending, _) => self.handler.survey(pending.call.args.input_path.as_str()),
            _ => self.handler.unsurveyed(""),
        }
    }

    /// Says what the host must do after `event`.  The converters and the
    /// input are looked for first, so the answer depends on the host; it is
    /// the step for some survey of the path that the event depends on.
    pub fn run(&self, event: Event) -> (action: Action)
        ensures
            exists|survey: SurveyView|
                survey.input_path == surveyed_path(event@) && survey.registry.len()
                    == self@.registry.len() && action@ == #[trigger] stepped(
                    self@,
                    event@,
                    survey,
                ),
            !depends_on_host(event@) ==> forall|survey: SurveyView|
                action@ == #[trigger] stepped(self@, event@, survey),
    {
        let survey = self.survey(&event);
        proof {
            if !depends_on_host(event@) {
                assert forall|other: SurveyView|
                    stepped(self@, event@, survey@) == #[trigger] stepped(
                        self@,
                        event@,
                        other,
                    ) by {
                    host_matters_only_to_calls(self@, event@, survey@, other);
                }
            }
        }
        self.step(event, &survey)
    }

    /// Says what the host must do after `event`, on a host that looks as
    /// `survey` says.
    pub fn step(&self, event: Event, survey: &Survey) -> (action: Action)
        ensures
            action@ == stepped(self@, event@, survey@),
    {
        match event {
            Event::Closed => Action::Stop,
            Event::Received(Incoming::Blank) => Action::Continue,
            Event::Received(Incoming::Unparsable(response)) => Action::Send(response),
            Event::Received(Incoming::Message(message)) => self.handle_message(message, survey),
            Event::Report(pending, report) => self.resume(pending, &report, survey),
        }
    }

    /// Answers one message: checks its envelope, serves it by its method,
    /// and shapes the response.
    pub fn handle_message(&self, message: Json, survey: &Survey) -> (action: Action)
        ensures
            action@ == handled(self@, message@, survey@),
            message@.get("id"@) is None || message@.get("id"@) == Some(JsonValue::Null)
                ==> refuses_with(action@, -32600) && answers_to(action@, JsonValue::Null),
            message@.text_at("jsonrpc"@) != Some("2.0"@) ==> refuses_with(action@, -32600),
            valid_envelope(message@) && unknown_method(message@) ==> refuses_with(action@, -32601),
    {
        proof {
            if message@.get("id"@) is None || message@.get("id"@) == Some(JsonValue::Null) {
                missing_id_is_invalid(self@, message@, survey@);
            }
            if message@.text_at("jsonrpc"@) != Some("2.0"@) {
                wrong_version_is_invalid(self@, message@, survey@);
            }
            if valid_envelope(message@) && unknown_method(message@) {
                unknown_method_is_not_found(self@, message@, survey@);
            }
        }
        let versioned = match message.text_at("jsonrpc") {
            Some(version) => same_text(version, "2.0"),
            None => false,
        };
        if !versioned {
            let id = match message.get("id") {
                Some(id) => id.clone(),
                None => Json::Null,
            };
            return Action::Send(
                make_error_response(
                    id,
                    -32600,
                    "Invalid Request",
                    "Missing or invalid jsonrpc version",
                ),
            );
        }
        let id = match message.get("id") {
            Some(id) => {
                if id.is_null() {
                    return Action::Send(
                        make_error_response(
                            Json::Null,
                            -32600,
                            "Invalid Request",
                            "Missing or null id",
                        ),
                    );
                }
                id.clone()
            },
            None => {
                return Action::Send(
                    make_error_response(
                        Json::Null,
                        -32600,
                        "Invalid Request",
                        "Missing or null id",
                    ),
                );
            },
        };
        let outcome = match message.text_at("method") {
            None => ToolOutcome::Finished(
                Err(McpImageError::Mcp(String::from_str("Missing method"))),
            ),
            Some(method) => {
                if same_text(method, "initialize") {
                    self.handle_initialize(take_or_empty(&message, "params"))
                } else if same_text(method, "tools/list") {
                    self.handle_tools_list()
                } else if same_text(method, "tools/call") {
                    self.handle_tool_call(take_or_empty(&message, "params"), survey)
                } else {
                    ToolOutcome::Finished(
                        Err(McpImageError::Mcp(join("Method not found: ", method))),
                    )
                }
            },
        };
        answer(id, outcome)
    }

    /// Goes on with a request after the host ran its command line.
    pub fn resume(
        &self,
        pending: PendingRequest,
        report: &ProcessReport,
        survey: &Survey,
    ) -> (action: Action)
        ensures
            action@ == resumed(self@, pending@, report@, survey@),
    {
        let outcome = self.handler.resume_tool_call(pending.call, report, survey);
        answer(pending.id, outcome)
    }

    /// The fixed announcement of what the service is and can do.
    pub fn handle_initialize(&self, _params: Json) -> (o: ToolOutcome)
        ensures
            o@ == ToolOutcomeView::Finished(Ok(initialize_result())),
    {
        let capabilities = JsonObject::new().with("tools", JsonObject::new().build()).build();
        let info = JsonObject::new().with("name", Json::text("mcp-imagemagick")).with(
            "version",
            Json::text("0.1.0"),
        ).build();
        ToolOutcome::Finished(
            Ok(
                JsonObject::new().with("capabilities", capabilities).with(
                    "protocolVersion",
                    Json::text("2024-11-05"),
                ).with("serverInfo", info).build(),
            ),
        )
    }

    /// The descriptions of the two tools.
    pub fn handle_tools_list(&self) -> (o: ToolOutcome)
        ensures
            o@ == ToolOutcomeView::Finished(Ok(tools_list_result())),
    {
        let mut tools: Vec<Json> = Vec::new();
        tools.push(ImageHandler::get_convert_tool_schema());
        tools.push(ImageHandler::get_check_tool_schema());
        assert(items_view(tools@) =~= seq![convert_tool_schema(), check_tool_schema()]);
        ToolOutcome::Finished(Ok(JsonObject::new().with("tools", Json::array(tools)).build()))
    }

    /// Serves `tools/call`: the tool is named by `name`, and its arguments
    /// are the member `arguments`, or none.
    pub fn handle_tool_call(&self, params: Json, survey: &Survey) -> (o: ToolOutcome)
        ensures
            o@ == called(self@, params@, survey@),
    {
        match params.text_at("name") {
            None => ToolOutcome::Finished(
                Err(McpImageError::Mcp(String::from_str("Invalid params: missing tool name"))),
            ),
            Some(name) => {
                let arguments = take_or_empty(&params, "arguments");
                self.handler.handle_tool_call(name, arguments, survey)
            },
        }
    }
}

/// The step after any other event is the same on every host.
pub proof fn host_matters_only_to_calls(
    handler: HandlerView,
    event: EventView,
    first: SurveyView,
    second: SurveyView,
)
    requires
        !depends_on_host(event),
    ensures
        stepped(handler, event, first) == stepped(handler, event, second),
{
}

/// A request without an `id`, or whose `id` is `null`, is refused as an
/// invalid request, and the refusal has `null` for its `id`.
pub proof fn missing_id_is_invalid(
    handler: HandlerView,
    message: JsonValue,
    survey: SurveyView,
)
    requires
        message.get("id"@) is None || message.get("id"@) == Some(JsonValue::Null),
    ensures
        refuses_with(handled(handler, message, survey), -32600),
        answers_to(handled(handler, message, survey), JsonValue::Null),
{
    error_response_reads(
        JsonValue::Null,
        -32600,
        "Invalid Request"@,
        "Missing or invalid jsonrpc version"@,
    );
    error_response_reads(JsonValue::Null, -32600, "Invalid Request"@, "Missing or null id"@);
}

/// A request that does not name version 2.0 is refused as an invalid
/// request, and the refusal repeats the `id` of the request, or has `null`
/// where there is none.
pub proof fn wrong_version_is_invalid(
    handler: HandlerView,
    message: JsonValue,
    survey: SurveyView,
)
    requires
        message.text_at("jsonrpc"@) != Some("2.0"@),
    ensures
        refuses_with(handled(handler, message, survey), -32600),
        answers_to(handled(handler, message, survey), id_or_null(message)),
{
    error_response_reads(
        id_or_null(message),
        -32600,
        "Invalid Request"@,
        "Missing or invalid jsonrpc version"@,
    );
}

/// A request with a valid envelope and a method that the service does not
/// know is refused with the code for a method not found, under its own
/// `id`.
pub proof fn unknown_method_is_not_found(
    handler: HandlerView,
    message: JsonValue,
    survey: SurveyView,
)
    requires
        valid_envelope(message),
        unknown_method(message),
    ensures
        refuses_with(handled(handler, message, survey), -32601),
        answers_to(handled(handler, message, survey), id_or_null(message)),
{
    let method = message.text_at("method"@)->Some_0;
    let e = Failure::Mcp("Method not found: "@ + method);
    assert(contains("Method not found: "@ + method, "Method not found"@)) by {
        reveal_strlit("Method not found: ");
        reveal_strlit("Method not found");
        reveal_strlit(": ");
        assert("Method not found: "@ =~= "Method not found"@ + ": "@);
        assert("Method not found: "@ + method =~= "Method not found"@ + (": "@ + method));
        prefix_is_contained("Method not found"@, ": "@ + method);
    }
    error_response_reads(id_or_null(message), error_code(e), error_message(e), e.text());
}

/// The answer to a request that was served carries the `id` of the
/// request.  Where the request has failed, the answer has the code of the
/// failure, and the text of the failure is kept whole as its detail; where
/// it has succeeded, the answer holds the result and no error.
pub proof fn answers_keep_id_and_detail(id: JsonValue, outcome: ToolOutcomeView)
    requires
        outcome is Finished,
    ensures
        answered(id, outcome) matches ActionView::Send(response) && {
            &&& response.get("id"@) == Some(id)
            &&& response.get("jsonrpc"@) == Some(JsonValue::Text("2.0"@))
            &&& match outcome->Finished_0 {
                Ok(result) => response.get("result"@) == Some(result) && response.get("error"@)
                    is None,
                Err(e) => {
                    &&& error_code_of(response) == Some(JsonValue::integer(error_code(e)))
                    &&& error_data_of(response) == Some(JsonValue::Text(e.text()))
                    &&& response.get("result"@) is None
                },
            }
        },
{
    match outcome->Finished_0 {
        Ok(result) => {
            success_response_reads(id, result);
        },
        Err(e) => {
            error_response_reads(id, error_code(e), error_message(e), e.text());
        },
    }
}

/// A request to convert an input whose path does not end in `.dng`, in
/// whatever case, is answered at once: the host is never told to run anything for
/// it.
pub proof fn wrong_extension_is_answered_at_once(
    handler: HandlerView,
    message: JsonValue,
    survey: SurveyView,
)
    requires
        member_or_empty(message, "params"@).text_at("name"@) == Some("convert_dng_to_webp"@),
        convert_args(member_or_empty(member_or_empty(message, "params"@), "arguments"@)) is Ok,
        !ends_in_dng(surveyed_path(EventView::Received(IncomingView::Message(message)))),
    ensures
        handled(handler, message, survey) is Send,
{
    wrong_extension_fails_the_call(
        handler,
        member_or_empty(member_or_empty(message, "params"@), "arguments"@),
        survey,
    );
}

/// After a report the request is either answered, or the host is told to
/// run the command line of a converter further down the registry, for the
/// same request.  So every request is answered after no more command lines
/// than the registry holds converters.
pub proof fn every_report_brings_the_answer_nearer(
    handler: HandlerView,
    pending: PendingRequestView,
    report: ProcessReportView,
    survey: SurveyView,
)
    requires
        0 <= pending.call.index,
    ensures
        match resumed(handler, pending, report, survey) {
            ActionView::Send(_) => true,
            ActionView::Execute(next) => {
                &&& pending.call.index < next.call.index < handler.registry.len()
                &&& next.id == pending.id
                &&& next.call.args == pending.call.args
            },
            _ => false,
        },
{
    let args = pending.call.args;
    if args.converter != "imagemagick"@ && args.converter != "darktable"@ && pending.call.index
        < handler.registry.len() {
        match handler.registry[pending.call.index].finish(report) {
            ConversionView::Done(Err(e)) => {
                asked_in_order(
                    handler.registry,
                    pending.call.index + 1,
                    args.input_path,
                    args.output_path,
                    survey,
                    Some(e),
                );
            },
            _ => {},
        }
    }
}

} // verus!
