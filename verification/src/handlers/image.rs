//! The two image tools: their arguments, their results, and the handler
//! that serves them.

use crate::converters::registry::{
    attempt_from, known_converters, resumed_at, wrong_extension_is_invalid,
    wrong_extension_runs_nothing,
};
use crate::converters::{
    chosen_command, ends_in_dng, path_exists, AutoConverter, Conversion, ConversionView,
    ConverterModel, DarktableConverter, ImageConverter, ImageMagickConverter, Invocation,
    InvocationView, ProcessReport, ProcessReportView, Survey, SurveyView,
};
use crate::error::{Failure, McpImageError};
use crate::json::{items_view, Json, JsonObject, JsonValue};
use crate::text::{decimal, join, push_decimal, same_text};
use vstd::prelude::*;
use vstd::string::StringExecFns;

verus! {

/// The arguments of `convert_dng_to_webp`.
#[derive(Debug, PartialEq, Eq)]
pub struct ConvertDngToWebpArgs {
    pub input_path: String,
    pub output_path: String,
    /// `imagemagick`, `darktable`, or anything else for automatic selection.
    pub converter: String,
}

/// The mathematical value of a `ConvertDngToWebpArgs`.
pub struct ConvertArgsView {
    pub input_path: Seq<char>,
    pub output_path: Seq<char>,
    pub converter: Seq<char>,
}

impl View for ConvertDngToWebpArgs {
    type V = ConvertArgsView;

    open spec fn view(&self) -> ConvertArgsView {
        ConvertArgsView {
            input_path: self.input_path@,
            output_path: self.output_path@,
            converter: self.converter@,
        }
    }
}

/// The converter meant where a request names none.
pub fn default_converter() -> (name: String)
    ensures
        name@ == "auto"@,
{
    String::from_str("auto")
}

/// What is wrong with a member that must be a string, if anything.
pub open spec fn text_fault(arguments: JsonValue, key: Seq<char>) -> Option<Seq<char>> {
    match arguments.get(key) {
        Some(v) => if v.as_text() is None {
            Some("invalid type for `"@ + key + "`, expected a string"@)
        } else {
            None
        },
        None => None,
    }
}

/// What the arguments of `convert_dng_to_webp` are read as: an object with
/// the strings `input_path` and `output_path`, and optionally the string
/// `converter`, which is `auto` where it is absent.  Members of the wrong
/// type are reported before members that are missing.
pub open spec fn convert_args(arguments: JsonValue) -> Result<ConvertArgsView, Seq<char>> {
    if !(arguments is Object) {
        Err("invalid type, expected an object"@)
    } else if text_fault(arguments, "converter"@) is Some {
        Err(text_fault(arguments, "converter"@).unwrap())
    } else if text_fault(arguments, "input_path"@) is Some {
        Err(text_fault(arguments, "input_path"@).unwrap())
    } else if text_fault(arguments, "output_path"@) is Some {
        Err(text_fault(arguments, "output_path"@).unwrap())
    } else if arguments.get("input_path"@) is None {
        Err("missing field `input_path`"@)
    } else if arguments.get("output_path"@) is None {
        Err("missing field `output_path`"@)
    } else {
        Ok(
            ConvertArgsView {
                input_path: arguments.text_at("input_path"@).unwrap(),
                output_path: arguments.text_at("output_path"@).unwrap(),
                converter: match arguments.text_at("converter"@) {
                    Some(c) => c,
                    None => "auto"@,
                },
            },
        )
    }
}

fn check_text_member(arguments: &Json, key: &str) -> (fault: Option<String>)
    ensures
        match fault {
            Some(f) => text_fault(arguments@, key@) == Some(f@),
            None => text_fault(arguments@, key@) is None,
        },
{
    match arguments.get(key) {
        Some(v) => {
            if v.as_str().is_none() {
                let mut f = String::from_str("invalid type for `");
                f.append(key);
                f.append("`, expected a string");
                Some(f)
            } else {
                None
            }
        },
        None => None,
    }
}

impl ConvertDngToWebpArgs {
    /// Reads the arguments of a call.
    pub fn from_json(arguments: &Json) -> (r: Result<ConvertDngToWebpArgs, String>)
        ensures
            match r {
                Ok(args) => convert_args(arguments@) == Ok::<ConvertArgsView, Seq<char>>(args@),
                Err(why) => convert_args(arguments@) == Err::<ConvertArgsView, Seq<char>>(why@),
            },
    {
        match arguments {
            Json::Object(_) => {},
            _ => {
                return Err(String::from_str("invalid type, expected an object"));
            },
        }
        if let Some(f) = check_text_member(arguments, "converter") {
            return Err(f);
        }
        if let Some(f) = check_text_member(arguments, "input_path") {
            return Err(f);
        }
        if let Some(f) = check_text_member(arguments, "output_path") {
            return Err(f);
        }
        let input_path = match arguments.get("input_path") {
            Some(v) => match v.as_str() {
                Some(t) => String::from_str(t),
                None => {
                    return Err(String::from_str("missing field `input_path`"));
                },
            },
            None => {
                return Err(String::from_str("missing field `input_path`"));
            },
        };
        let output_path = match arguments.get("output_path") {
            Some(v) => match v.as_str() {
                Some(t) => String::from_str(t),
                None => {
                    return Err(String::from_str("missing field `output_path`"));
                },
            },
            None => {
                return Err(String::from_str("missing field `output_path`"));
            },
        };
        let converter = match arguments.get("converter") {
            Some(v) => match v.as_str() {
                Some(t) => String::from_str(t),
                None => default_converter(),
            },
            None => default_converter(),
        };
        Ok(ConvertDngToWebpArgs { input_path, output_path, converter })
    }
}

/// The arguments of `check_converters`: none.
#[derive(Debug, PartialEq, Eq)]
pub struct CheckConvertersArgs {}

/// What the arguments of `check_converters` are read as: any object.
pub open spec fn check_args(arguments: JsonValue) -> Result<(), Seq<char>> {
    if arguments is Object {
        Ok(())
    } else {
        Err("invalid type, expected an object"@)
    }
}

impl CheckConvertersArgs {
    /// Reads the arguments of a call.
    pub fn from_json(arguments: &Json) -> (r: Result<CheckConvertersArgs, String>)
        ensures
            match r {
                Ok(_) => check_args(arguments@) is Ok,
                Err(why) => check_args(arguments@) == Err::<(), Seq<char>>(why@),
            },
    {
        match arguments {
            Json::Object(_) => Ok(CheckConvertersArgs {  }),
            _ => Err(String::from_str("invalid type, expected an object")),
        }
    }
}

/// What a finished conversion is reported as.
#[derive(Debug, PartialEq, Eq)]
pub struct ConversionResult {
    pub success: bool,
    pub message: String,
    pub output_path: String,
}

/// The mathematical value of a `ConversionResult`.
pub struct ConversionResultView {
    pub success: bool,
    pub message: Seq<char>,
    pub output_path: Seq<char>,
}

impl ConversionResultView {
    /// The result as a document.
    pub open spec fn json(self) -> JsonValue {
        JsonValue::object().with("message"@, JsonValue::Text(self.message)).with(
            "output_path"@,
            JsonValue::Text(self.output_path),
        ).with("success"@, JsonValue::Bool(self.success))
    }
}

impl View for ConversionResult {
    type V = ConversionResultView;

    open spec fn view(&self) -> ConversionResultView {
        ConversionResultView {
            success: self.success,
            message: self.message@,
            output_path: self.output_path@,
        }
    }
}

impl ConversionResult {
    /// The result as a document.
    pub fn to_json(&self) -> (j: Json)
        ensures
            j@ == self@.json(),
    {
        JsonObject::new().with("message", Json::text(self.message.as_str())).with(
            "output_path",
            Json::text(self.output_path.as_str()),
        ).with("success", Json::Bool(self.success)).build()
    }
}

/// Whether one converter can be found.
#[derive(Debug, PartialEq, Eq)]
pub struct ConverterInfo {
    pub name: String,
    pub available: bool,
}

/// The mathematical value of a `ConverterInfo`.
pub struct ConverterInfoView {
    pub name: Seq<char>,
    pub available: bool,
}

impl ConverterInfoView {
    /// The entry as a document.
    pub open spec fn json(self) -> JsonValue {
        JsonValue::object().with("available"@, JsonValue::Bool(self.available)).with(
            "name"@,
            JsonValue::Text(self.name),
        )
    }

    /// The entry as a line of a bulleted list.
    pub open spec fn line(self) -> Seq<char> {
        "- "@ + self.name + ": "@ + (if self.available {
            "Available"@
        } else {
            "Not available"@
        }) + "\n"@
    }
}

impl View for ConverterInfo {
    type V = ConverterInfoView;

    open spec fn view(&self) -> ConverterInfoView {
        ConverterInfoView { name: self.name@, available: self.available }
    }
}

impl ConverterInfo {
    /// The entry as a document.
    pub fn to_json(&self) -> (j: Json)
        ensures
            j@ == self@.json(),
    {
        JsonObject::new().with("available", Json::Bool(self.available)).with(
            "name",
            Json::text(self.name.as_str()),
        ).build()
    }
}

/// The values of a list of entries.
pub open spec fn infos_view(converters: Seq<ConverterInfo>) -> Seq<ConverterInfoView> {
    Seq::new(converters.len(), |i: int| converters[i]@)
}

/// How many of the entries say `available`.
pub open spec fn count_available(converters: Seq<ConverterInfoView>) -> nat
    decreases converters.len(),
{
    if converters.len() == 0 {
        0
    } else {
        count_available(converters.drop_last()) + if converters.last().available {
            1nat
        } else {
            0nat
        }
    }
}

/// The entries as documents.
pub open spec fn infos_json(converters: Seq<ConverterInfoView>) -> Seq<JsonValue> {
    Seq::new(converters.len(), |i: int| converters[i].json())
}

/// The entries as the lines of a bulleted list.
pub open spec fn lines(converters: Seq<ConverterInfoView>) -> Seq<char>
    decreases converters.len(),
{
    if converters.len() == 0 {
        Seq::empty()
    } else {
        lines(converters.drop_last()) + converters.last().line()
    }
}

/// Which converters can be found, and how many.
#[derive(Debug, PartialEq, Eq)]
pub struct CheckConvertersResult {
    pub converters: Vec<ConverterInfo>,
    pub available_count: usize,
}

/// The mathematical value of a `CheckConvertersResult`.
pub struct CheckConvertersResultView {
    pub converters: Seq<ConverterInfoView>,
    pub available_count: nat,
}

impl CheckConvertersResultView {
    /// The result as a document.
    pub open spec fn json(self) -> JsonValue {
        JsonValue::object().with(
            "available_count"@,
            JsonValue::integer(self.available_count as int),
        ).with("converters"@, JsonValue::Array(infos_json(self.converters)))
    }

    /// The result as text: a line for each converter, then the count.
    pub open spec fn text(self) -> Seq<char> {
        "Available converters:\n"@ + lines(self.converters) + "\nTotal available: "@ + decimal(
            self.available_count,
        )
    }
}

impl View for CheckConvertersResult {
    type V = CheckConvertersResultView;

    open spec fn view(&self) -> CheckConvertersResultView {
        CheckConvertersResultView {
            converters: infos_view(self.converters@),
            available_count: self.available_count as nat,
        }
    }
}

impl CheckConvertersResult {
    /// The result for the given entries, with their count.
    pub fn new(converters: Vec<ConverterInfo>) -> (result: CheckConvertersResult)
        ensures
            result@.converters == infos_view(converters@),
            result@.available_count == count_available(infos_view(converters@)),
    {
        let ghost all = infos_view(converters@);
        let mut count: usize = 0;
        let mut i: usize = 0;
        assert(all.take(0) =~= Seq::<ConverterInfoView>::empty());
        while i < converters.len()
            invariant
                i <= converters.len(),
                all == infos_view(converters@),
                count <= i,
                count == count_available(all.take(i as int)),
            decreases converters.len() - i,
        {
            assert(all.take(i + 1).drop_last() =~= all.take(i as int));
            assert(all.take(i + 1).last() == converters@[i as int]@);
            if converters[i].available {
                count += 1;
            }
            i += 1;
        }
        assert(all.take(i as int) =~= all);
        CheckConvertersResult { converters, available_count: count }
    }

    /// The result as a document.
    pub fn to_json(&self) -> (j: Json)
        ensures
            j@ == self@.json(),
    {
        let mut entries: Vec<Json> = Vec::new();
        let mut i: usize = 0;
        while i < self.converters.len()
            invariant
                i <= self.converters.len(),
                entries@.len() == i,
                forall|k: int| 0 <= k < i ==> entries@[k]@ == self.converters@[k]@.json(),
            decreases self.converters.len() - i,
        {
            entries.push(self.converters[i].to_json());
            i += 1;
        }
        assert(items_view(entries@) =~= infos_json(self@.converters));
        JsonObject::new().with("available_count", Json::unsigned(self.available_count as u64)).with(
            "converters",
            Json::array(entries),
        ).build()
    }

    /// The result as text: a line for each converter, then the count.
    pub fn to_text(&self) -> (text: String)
        ensures
            text@ == self@.text(),
    {
        let ghost all = self@.converters;
        let mut body = String::new();
        let mut i: usize = 0;
        assert(all.take(0) =~= Seq::<ConverterInfoView>::empty());
        while i < self.converters.len()
            invariant
                i <= self.converters.len(),
                all == infos_view(self.converters@),
                body@ == lines(all.take(i as int)),
            decreases self.converters.len() - i,
        {
            assert(all.take(i + 1).drop_last() =~= all.take(i as int));
            assert(all.take(i + 1).last() == self.converters@[i as int]@);
            let info = &self.converters[i];
            let mut line = String::from_str("- ");
            line.append(info.name.as_str());
            line.append(": ");
            if info.available {
                line.append("Available");
            } else {
                line.append("Not available");
            }
            line.append("\n");
            assert(line@ == info@.line());
            body.append(line.as_str());
            i += 1;
        }
        assert(all.take(i as int) =~= all);
        let mut text = String::from_str("Available converters:\n");
        text.append(body.as_str());
        text.append("\nTotal available: ");
        push_decimal(&mut text, self.available_count as u64);
        text
    }
}

/// A call of `convert_dng_to_webp` that waits for the host to run a command
/// line.
#[derive(Debug, PartialEq, Eq)]
pub struct PendingCall {
    pub args: ConvertDngToWebpArgs,
    /// The place in the registry of the converter that asked, under
    /// automatic selection.
    pub index: usize,
    pub invocation: Invocation,
}

/// The mathematical value of a `PendingCall`.
pub struct PendingCallView {
    pub args: ConvertArgsView,
    pub index: int,
    pub invocation: InvocationView,
}

impl View for PendingCall {
    type V = PendingCallView;

    open spec fn view(&self) -> PendingCallView {
        PendingCallView {
            args: self.args@,
            index: self.index as int,
            invocation: self.invocation@,
        }
    }
}

/// Where a call of a tool stands.
#[derive(Debug, PartialEq, Eq)]
pub enum ToolOutcome {
    /// The call is over, with its result or its failure.
    Finished(Result<Json, McpImageError>),
    /// The host is to run the command line and to report what came of it.
    Pending(PendingCall),
}

/// The mathematical value of a `ToolOutcome`.
pub enum ToolOutcomeView {
    Finished(Result<JsonValue, Failure>),
    Pending(PendingCallView),
}

impl View for ToolOutcome {
    type V = ToolOutcomeView;

    open spec fn view(&self) -> ToolOutcomeView {
        match self {
            ToolOutcome::Finished(Ok(j)) => ToolOutcomeView::Finished(Ok(j@)),
            ToolOutcome::Finished(Err(e)) => ToolOutcomeView::Finished(Err(e@)),
            ToolOutcome::Pending(p) => ToolOutcomeView::Pending(p@),
        }
    }
}

/// The name that a successful conversion is reported under: that of the
/// converter asked for, or `auto`.
pub open spec fn chosen_name(converter: Seq<char>) -> Seq<char> {
    if converter == "imagemagick"@ {
        "imagemagick"@
    } else if converter == "darktable"@ {
        "darktable"@
    } else {
        "auto"@
    }
}

/// The confirmation of a successful conversion.
pub open spec fn success_message(args: ConvertArgsView) -> Seq<char> {
    "Successfully converted "@ + args.input_path + " to "@ + args.output_path + " using "@
        + chosen_name(args.converter)
}

/// The report of a successful conversion.
pub open spec fn conversion_result(args: ConvertArgsView) -> ConversionResultView {
    ConversionResultView {
        success: true,
        message: success_message(args),
        output_path: args.output_path,
    }
}

/// What the host can be said to look like to `check_converters`.
pub open spec fn check_result(survey: SurveyView) -> CheckConvertersResultView {
    let converters = seq![
        ConverterInfoView { name: "imagemagick"@, available: survey.imagemagick },
        ConverterInfoView { name: "darktable"@, available: survey.darktable },
    ];
    CheckConvertersResultView { converters, available_count: count_available(converters) }
}

/// The envelope that a tool's text goes out in: one block of text.
pub open spec fn content(text: Seq<char>) -> JsonValue {
    JsonValue::object().with(
        "content"@,
        JsonValue::Array(
            seq![
                JsonValue::object().with("text"@, JsonValue::Text(text)).with(
                    "type"@,
                    JsonValue::Text("text"@),
                ),
            ],
        ),
    )
}

/// The outcome of a call from where its conversion stands.
pub open spec fn outcome(conversion: ConversionView, args: ConvertArgsView) -> ToolOutcomeView {
    match conversion {
        ConversionView::Done(Ok(_)) => ToolOutcomeView::Finished(
            Ok(conversion_result(args).json()),
        ),
        ConversionView::Done(Err(e)) => ToolOutcomeView::Finished(Err(e)),
        ConversionView::Run { index, invocation } => ToolOutcomeView::Pending(
            PendingCallView { args, index, invocation },
        ),
    }
}

/// The outcome with the report of a success put into the envelope.
pub open spec fn enveloped(outcome: ToolOutcomeView, args: ConvertArgsView) -> ToolOutcomeView {
    match outcome {
        ToolOutcomeView::Finished(Ok(_)) => ToolOutcomeView::Finished(
            Ok(content(success_message(args))),
        ),
        other => other,
    }
}

/// What a handler is, as far as its behaviour goes.
pub struct HandlerView {
    pub registry: Seq<ConverterModel>,
    pub imagemagick: ConverterModel,
    pub darktable: ConverterModel,
}

impl HandlerView {
    /// Where a conversion stands when it starts.  A converter asked for by
    /// name must have been found, and is the only one tried; any other
    /// name leaves the choice to the registry.
    pub open spec fn start(self, args: ConvertArgsView, survey: SurveyView) -> ConversionView {
        if args.converter == "imagemagick"@ {
            if !survey.imagemagick {
                ConversionView::Done(
                    Err(Failure::ConverterNotAvailable("ImageMagick is not available"@)),
                )
            } else {
                self.imagemagick.start(args.input_path, args.output_path, survey.input_exists)
            }
        } else if args.converter == "darktable"@ {
            if !survey.darktable {
                ConversionView::Done(
                    Err(Failure::ConverterNotAvailable("darktable-cli is not available"@)),
                )
            } else {
                self.darktable.start(args.input_path, args.output_path, survey.input_exists)
            }
        } else {
            attempt_from(self.registry, 0, args.input_path, args.output_path, survey, None)
        }
    }

    /// Where a conversion stands after the report on its command line.
    pub open spec fn go_on(
        self,
        args: ConvertArgsView,
        index: int,
        report: ProcessReportView,
        survey: SurveyView,
    ) -> ConversionView {
        if args.converter == "imagemagick"@ {
            self.imagemagick.finish(report)
        } else if args.converter == "darktable"@ {
            self.darktable.finish(report)
        } else {
            resumed_at(self.registry, index, report, args.input_path, args.output_path, survey)
        }
    }

    /// The outcome of `convert_dng_to_webp`.
    pub open spec fn convert(self, args: ConvertArgsView, survey: SurveyView) -> ToolOutcomeView {
        outcome(self.start(args, survey), args)
    }

    /// The outcome of `convert_dng_to_webp` after the report on its command
    /// line.
    pub open spec fn convert_resumed(
        self,
        pending: PendingCallView,
        report: ProcessReportView,
        survey: SurveyView,
    ) -> ToolOutcomeView {
        outcome(self.go_on(pending.args, pending.index, report, survey), pending.args)
    }

    /// The outcome of a call of the tool `name` with `arguments`.
    pub open spec fn call(
        self,
        name: Seq<char>,
        arguments: JsonValue,
        survey: SurveyView,
    ) -> ToolOutcomeView {
        if name == "convert_dng_to_webp"@ {
            match convert_args(arguments) {
                Err(why) => ToolOutcomeView::Finished(
                    Err(Failure::Mcp("Invalid params: "@ + why)),
                ),
                Ok(args) => enveloped(self.convert(args, survey), args),
            }
        } else if name == "check_converters"@ {
            match check_args(arguments) {
                Err(why) => ToolOutcomeView::Finished(
                    Err(Failure::Mcp("Invalid params: "@ + why)),
                ),
                Ok(_) => ToolOutcomeView::Finished(Ok(content(check_result(survey).text()))),
            }
        } else {
            ToolOutcomeView::Finished(Err(Failure::Mcp("Unknown tool: "@ + name)))
        }
    }

    /// The outcome of a call after the report on its command line.
    pub open spec fn call_resumed(
        self,
        pending: PendingCallView,
        report: ProcessReportView,
        survey: SurveyView,
    ) -> ToolOutcomeView {
        enveloped(self.convert_resumed(pending, report, survey), pending.args)
    }
}

/// The description of `convert_dng_to_webp` that the service advertises.
pub open spec fn convert_tool_schema() -> JsonValue {
    let input_path = JsonValue::object().with(
        "description"@,
        JsonValue::Text("Path to DNG file"@),
    ).with("type"@, JsonValue::Text("string"@));
    let output_path = JsonValue::object().with(
        "description"@,
        JsonValue::Text("Path for WebP output"@),
    ).with("type"@, JsonValue::Text("string"@));
    let converter = JsonValue::object().with("default"@, JsonValue::Text("auto"@)).with(
        "description"@,
        JsonValue::Text("Which converter to use (auto selects the best available)"@),
    ).with(
        "enum"@,
        JsonValue::Array(
            seq![
                JsonValue::Text("auto"@),
                JsonValue::Text("imagemagick"@),
                JsonValue::Text("darktable"@),
            ],
        ),
    ).with("type"@, JsonValue::Text("string"@));
    let properties = JsonValue::object().with("converter"@, converter).with(
        "input_path"@,
        input_path,
    ).with("output_path"@, output_path);
    let input_schema = JsonValue::object().with("properties"@, properties).with(
        "required"@,
        JsonValue::Array(seq![JsonValue::Text("input_path"@), JsonValue::Text("output_path"@)]),
    ).with("type"@, JsonValue::Text("object"@));
    JsonValue::object().with(
        "description"@,
        JsonValue::Text("Convert DNG image to WebP format without loss"@),
    ).with("inputSchema"@, input_schema).with("name"@, JsonValue::Text("convert_dng_to_webp"@))
}

/// The description of `check_converters` that the service advertises.
pub open spec fn check_tool_schema() -> JsonValue {
    let input_schema = JsonValue::object().with("properties"@, JsonValue::object()).with(
        "type"@,
        JsonValue::Text("object"@),
    );
    JsonValue::object().with(
        "description"@,
        JsonValue::Text("Check which image converters are available on the system"@),
    ).with("inputSchema"@, input_schema).with("name"@, JsonValue::Text("check_converters"@))
}

/// The converter that the arguments ask for was found: the one named, or
/// under automatic selection at least one of the registry.
pub open spec fn found_one(
    handler: HandlerView,
    args: ConvertArgsView,
    survey: SurveyView,
) -> bool {
    if args.converter == "imagemagick"@ {
        survey.imagemagick
    } else if args.converter == "darktable"@ {
        survey.darktable
    } else {
        exists|i: int| 0 <= i < handler.registry.len() && survey.found(i)
    }
}

fn name_for(converter: &str) -> (name: &'static str)
    ensures
        name@ == chosen_name(converter@),
{
    if same_text(converter, "imagemagick") {
        "imagemagick"
    } else if same_text(converter, "darktable") {
        "darktable"
    } else {
        "auto"
    }
}

fn envelope(text: &str) -> (j: Json)
    ensures
        j@ == content(text@),
{
    let block = JsonObject::new().with("text", Json::text(text)).with("type", Json::text("text"))
        .build();
    let mut blocks: Vec<Json> = Vec::new();
    blocks.push(block);
    assert(items_view(blocks@) =~= seq![block@]);
    JsonObject::new().with("content", Json::array(blocks)).build()
}

fn confirm(args: &ConvertDngToWebpArgs) -> (message: String)
    ensures
        message@ == success_message(args@),
{
    let mut message = String::from_str("Successfully converted ");
    message.append(args.input_path.as_str());
    message.append(" to ");
    message.append(args.output_path.as_str());
    message.append(" using ");
    message.append(name_for(args.converter.as_str()));
    message
}

fn settle(conversion: Conversion, args: ConvertDngToWebpArgs) -> (o: ToolOutcome)
    ensures
        o@ == outcome(conversion@, args@),
{
    match conversion {
        Conversion::Done(Ok(_)) => {
            let result = ConversionResult {
                success: true,
                message: confirm(&args),
                output_path: args.output_path,
            };
            ToolOutcome::Finished(Ok(result.to_json()))
        },
        Conversion::Done(Err(e)) => ToolOutcome::Finished(Err(e)),
        Conversion::Run { index, invocation } => ToolOutcome::Pending(
            PendingCall { args, index, invocation },
        ),
    }
}

/// The handler is one of the two known converters and of their registry,
/// with ImageMagick under one of its two names.
pub open spec fn known_handler(handler: HandlerView) -> bool {
    &&& exists|convert7_found: bool, magick_found: bool|
        handler.registry == known_converters(
            #[trigger] chosen_command(convert7_found, magick_found),
        )
    &&& exists|convert7_found: bool, magick_found: bool|
        handler.imagemagick == (ConverterModel::ImageMagick {
            command: #[trigger] chosen_command(convert7_found, magick_found),
        })
    &&& handler.darktable == ConverterModel::Darktable
}

/// Serves the two image tools.
#[derive(Debug, PartialEq, Eq)]
pub struct ImageHandler {
    auto_converter: AutoConverter,
    imagemagick: ImageMagickConverter,
    darktable: DarktableConverter,
}

impl View for ImageHandler {
    type V = HandlerView;

    closed spec fn view(&self) -> HandlerView {
        HandlerView {
            registry: self.auto_converter@,
            imagemagick: self.imagemagick@,
            darktable: self.darktable@,
        }
    }
}

impl ImageHandler {
    /// The handler of the two known converters and their registry.
    pub fn new() -> (handler: ImageHandler)
        ensures
            known_handler(handler@),
    {
        ImageHandler {
            auto_converter: AutoConverter::new(),
            imagemagick: ImageMagickConverter::new(),
            darktable: DarktableConverter::new(),
        }
    }

    /// The handler of the given converters and registry.
    pub fn with_converters(
        auto_converter: AutoConverter,
        imagemagick: ImageMagickConverter,
        darktable: DarktableConverter,
    ) -> (handler: ImageHandler)
        ensures
            handler@ == (HandlerView {
                registry: auto_converter@,
                imagemagick: imagemagick@,
                darktable: darktable@,
            }),
    {
        ImageHandler { auto_converter, imagemagick, darktable }
    }

    /// Looks at the host: which converters can be found right now, and
    /// whether `input_path` exists.
    pub fn survey(&self, input_path: &str) -> (survey: Survey)
        ensures
            survey@.registry.len() == self@.registry.len(),
            survey@.input_path == input_path@,
    {
        Survey {
            imagemagick: self.imagemagick.is_available(),
            darktable: self.darktable.is_available(),
            registry: self.auto_converter.survey(),
            input_path: String::from_str(input_path),
            input_exists: path_exists(input_path),
        }
    }

    /// The survey of a host that was not looked at: nothing counts as found.
    pub fn unsurveyed(&self, input_path: &str) -> (survey: Survey)
        ensures
            survey@.registry.len() == self@.registry.len(),
            survey@.input_path == input_path@,
            !survey@.imagemagick,
            !survey@.darktable,
            !survey@.input_exists,
            forall|i: int| !survey@.found(i),
    {
        Survey {
            imagemagick: false,
            darktable: false,
            registry: self.auto_converter.none_found(),
            input_path: String::from_str(input_path),
            input_exists: false,
        }
    }

    /// Starts the conversion that `args` asks for, on a host that looks as
    /// `survey` says.
    pub fn convert_dng_to_webp(&self, args: ConvertDngToWebpArgs, survey: &Survey) -> (o:
        ToolOutcome)
        ensures
            o@ == self@.convert(args@, survey@),
    {
        let input = args.input_path.as_str();
        let output = args.output_path.as_str();
        let conversion = if same_text(args.converter.as_str(), "imagemagick") {
            if !survey.imagemagick {
                Conversion::Done(
                    Err(
                        McpImageError::ConverterNotAvailable(
                            String::from_str("ImageMagick is not available"),
                        ),
                    ),
                )
            } else {
                self.imagemagick.convert_dng_to_webp(input, output, survey)
            }
        } else if same_text(args.converter.as_str(), "darktable") {
            if !survey.darktable {
                Conversion::Done(
                    Err(
                        McpImageError::ConverterNotAvailable(
                            String::from_str("darktable-cli is not available"),
                        ),
                    ),
                )
            } else {
                self.darktable.convert_dng_to_webp(input, output, survey)
            }
        } else {
            self.auto_converter.convert_dng_to_webp(input, output, survey)
        };
        settle(conversion, args)
    }

    /// Goes on with a conversion after the host ran its command line.
    pub fn resume_conversion(
        &self,
        pending: PendingCall,
        report: &ProcessReport,
        survey: &Survey,
    ) -> (o: ToolOutcome)
        ensures
            o@ == self@.convert_resumed(pending@, report@, survey@),
    {
        let args = pending.args;
        let input = args.input_path.as_str();
        let output = args.output_path.as_str();
        let conversion = if same_text(args.converter.as_str(), "imagemagick") {
            self.imagemagick.resume(pending.index, report, input, output, survey)
        } else if same_text(args.converter.as_str(), "darktable") {
            self.darktable.resume(pending.index, report, input, output, survey)
        } else {
            self.auto_converter.resume(pending.index, report, input, output, survey)
        };
        settle(conversion, args)
    }

    /// Says which converters `survey` found, and how many.
    pub fn check_converters(&self, _args: CheckConvertersArgs, survey: &Survey) -> (r: Result<
        Json,
        McpImageError,
    >)
        ensures
            r is Ok,
            r->Ok_0@ == check_result(survey@).json(),
    {
        Ok(ImageHandler::found_converters(survey).to_json())
    }

    /// Which converters `survey` found, and how many.
    pub fn found_converters(survey: &Survey) -> (result: CheckConvertersResult)
        ensures
            result@ == check_result(survey@),
    {
        let mut converters: Vec<ConverterInfo> = Vec::new();
        converters.push(
            ConverterInfo { name: String::from_str("imagemagick"), available: survey.imagemagick },
        );
        converters.push(
            ConverterInfo { name: String::from_str("darktable"), available: survey.darktable },
        );
        assert(infos_view(converters@) =~= check_result(survey@).converters);
        CheckConvertersResult::new(converters)
    }

    /// The description of `convert_dng_to_webp` that the service advertises.
    pub fn get_convert_tool_schema() -> (schema: Json)
        ensures
            schema@ == convert_tool_schema(),
    {
        let input_path = JsonObject::new().with("description", Json::text("Path to DNG file")).with(
            "type",
            Json::text("string"),
        ).build();
        let output_path = JsonObject::new().with(
            "description",
            Json::text("Path for WebP output"),
        ).with("type", Json::text("string")).build();
        let mut names: Vec<Json> = Vec::new();
        names.push(Json::text("auto"));
        names.push(Json::text("imagemagick"));
        names.push(Json::text("darktable"));
        assert(items_view(names@) =~= seq![
            JsonValue::Text("auto"@),
            JsonValue::Text("imagemagick"@),
            JsonValue::Text("darktable"@),
        ]);
        let converter = JsonObject::new().with("default", Json::text("auto")).with(
            "description",
            Json::text("Which converter to use (auto selects the best available)"),
        ).with("enum", Json::array(names)).with("type", Json::text("string")).build();
        let properties = JsonObject::new().with("converter", converter).with(
            "input_path",
            input_path,
        ).with("output_path", output_path).build();
        let mut required: Vec<Json> = Vec::new();
        required.push(Json::text("input_path"));
        required.push(Json::text("output_path"));
        assert(items_view(required@) =~= seq![
            JsonValue::Text("input_path"@),
            JsonValue::Text("output_path"@),
        ]);
        let input_schema = JsonObject::new().with("properties", properties).with(
            "required",
            Json::array(required),
        ).with("type", Json::text("object")).build();
        JsonObject::new().with(
            "description",
            Json::text("Convert DNG image to WebP format without loss"),
        ).with("inputSchema", input_schema).with("name", Json::text("convert_dng_to_webp")).build()
    }

    /// The description of `check_converters` that the service advertises.
    pub fn get_check_tool_schema() -> (schema: Json)
        ensures
            schema@ == check_tool_schema(),
    {
        let input_schema = JsonObject::new().with("properties", JsonObject::new().build()).with(
            "type",
            Json::text("object"),
        ).build();
        JsonObject::new().with(
            "description",
            Json::text("Check which image converters are available on the system"),
        ).with("inputSchema", input_schema).with("name", Json::text("check_converters")).build()
    }

    /// Serves a call of the tool `name` with `arguments`, on a host that
    /// looks as `survey` says.
    pub fn handle_tool_call(&self, name: &str, arguments: Json, survey: &Survey) -> (o:
        ToolOutcome)
        ensures
            o@ == self@.call(name@, arguments@, survey@),
    {
        if same_text(name, "convert_dng_to_webp") {
            match ConvertDngToWebpArgs::from_json(&arguments) {
                Err(why) => ToolOutcome::Finished(
                    Err(McpImageError::Mcp(join("Invalid params: ", why.as_str()))),
                ),
                Ok(args) => {
                    let message = confirm(&args);
                    match self.convert_dng_to_webp(args, survey) {
                        ToolOutcome::Finished(Ok(_)) => ToolOutcome::Finished(
                            Ok(envelope(message.as_str())),
                        ),
                        other => other,
                    }
                },
            }
        } else if same_text(name, "check_converters") {
            match CheckConvertersArgs::from_json(&arguments) {
                Err(why) => ToolOutcome::Finished(
                    Err(McpImageError::Mcp(join("Invalid params: ", why.as_str()))),
                ),
                Ok(_) => {
                    let text = ImageHandler::found_converters(survey).to_text();
                    ToolOutcome::Finished(Ok(envelope(text.as_str())))
                },
            }
        } else {
            ToolOutcome::Finished(Err(McpImageError::Mcp(join("Unknown tool: ", name))))
        }
    }

    /// Goes on with a call after the host ran its command line.
    pub fn resume_tool_call(
        &self,
        pending: PendingCall,
        report: &ProcessReport,
        survey: &Survey,
    ) -> (o: ToolOutcome)
        ensures
            o@ == self@.call_resumed(pending@, report@, survey@),
    {
        let message = confirm(&pending.args);
        match self.resume_conversion(pending, report, survey) {
            ToolOutcome::Finished(Ok(_)) => ToolOutcome::Finished(Ok(envelope(message.as_str()))),
            other => other,
        }
    }
}

/// An input whose path does not end in `.dng`, in whatever case, has no
/// command line run for it, whatever converter is asked for; and where the
/// input exists and the converter asked for was found, the conversion fails
/// with `InvalidInput`.
pub proof fn wrong_extension_is_refused(
    handler: HandlerView,
    args: ConvertArgsView,
    survey: SurveyView,
)
    requires
        !ends_in_dng(args.input_path),
    ensures
        !(handler.convert(args, survey) is Pending),
        survey.input_exists && found_one(handler, args, survey) ==> handler.convert(args, survey)
            == ToolOutcomeView::Finished(
            Err(Failure::InvalidInput("Input file must be a DNG file"@)),
        ),
{
    wrong_extension_runs_nothing(
        handler.registry,
        0,
        args.input_path,
        args.output_path,
        survey,
        None,
    );
    if survey.input_exists && found_one(handler, args, survey) && args.converter
        != "imagemagick"@ && args.converter != "darktable"@ {
        wrong_extension_is_invalid(
            handler.registry,
            0,
            args.input_path,
            args.output_path,
            survey,
            None,
        );
    }
}

/// The same of a call of the tool by its name: no command line is run, and
/// the call fails with `InvalidInput` where the input exists and the
/// converter asked for was found.
pub proof fn wrong_extension_fails_the_call(
    handler: HandlerView,
    arguments: JsonValue,
    survey: SurveyView,
)
    requires
        convert_args(arguments) is Ok,
        !ends_in_dng(convert_args(arguments)->Ok_0.input_path),
    ensures
        !(handler.call("convert_dng_to_webp"@, arguments, survey) is Pending),
        survey.input_exists && found_one(handler, convert_args(arguments)->Ok_0, survey)
            ==> handler.call("convert_dng_to_webp"@, arguments, survey)
            == ToolOutcomeView::Finished(
            Err(Failure::InvalidInput("Input file must be a DNG file"@)),
        ),
{
    wrong_extension_is_refused(handler, convert_args(arguments)->Ok_0, survey);
}

/// What `check_converters` answers depends on nothing but which of the two
/// converters were found: asked twice on a host that has not changed, it
/// answers the same.
pub proof fn check_answers_the_same(
    handler: HandlerView,
    other: HandlerView,
    arguments: JsonValue,
    first: SurveyView,
    second: SurveyView,
)
    requires
        first.imagemagick == second.imagemagick,
        first.darktable == second.darktable,
    ensures
        handler.call("check_converters"@, arguments, first) == other.call(
            "check_converters"@,
            arguments,
            second,
        ),
        check_args(arguments) is Ok ==> handler.call("check_converters"@, arguments, first)
            == ToolOutcomeView::Finished(Ok(content(check_result(first).text()))),
{
    reveal_strlit("check_converters");
    reveal_strlit("convert_dng_to_webp");
    assert("check_converters"@.len() != "convert_dng_to_webp"@.len());
}

} // verus!
