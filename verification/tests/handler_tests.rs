use mcp_imagemagick::converters::{
    AutoConverter, Converter, DarktableConverter, ImageMagickConverter, Invocation, ProcessReport,
    Survey,
};
use mcp_imagemagick::handlers::image::{
    default_converter, CheckConvertersArgs, CheckConvertersResult, ConversionResult,
    ConvertDngToWebpArgs, ConverterInfo, ImageHandler, PendingCall, ToolOutcome,
};
use mcp_imagemagick::json::Json;
use mcp_imagemagick::transport::{Incoming, StdioTransport};
use mcp_imagemagick::McpImageError;

fn read(line: &str) -> Json {
    match StdioTransport::read_message(line) {
        Incoming::Message(document) => document,
        other => panic!("no document: {:?}", other),
    }
}

fn text(s: &str) -> Json {
    Json::Text(s.to_string())
}

fn handler() -> ImageHandler {
    ImageHandler::with_converters(
        AutoConverter::with_converters(vec![
            Converter::ImageMagick(ImageMagickConverter::from_search(false, true)),
            Converter::Darktable(DarktableConverter::new()),
        ]),
        ImageMagickConverter::from_search(true, false),
        DarktableConverter::new(),
    )
}

fn survey(imagemagick: bool, darktable: bool, input_path: &str, input_exists: bool) -> Survey {
    Survey {
        imagemagick,
        darktable,
        registry: vec![imagemagick, darktable],
        input_path: input_path.to_string(),
        input_exists,
    }
}

fn args(input: &str, output: &str, converter: &str) -> ConvertDngToWebpArgs {
    ConvertDngToWebpArgs {
        input_path: input.to_string(),
        output_path: output.to_string(),
        converter: converter.to_string(),
    }
}

fn exited(success: bool, stdout: &str, stderr: &str) -> ProcessReport {
    ProcessReport::Exited {
        success,
        stdout: stdout.as_bytes().to_vec(),
        stderr: stderr.as_bytes().to_vec(),
    }
}

fn darktable_line(input: &str, output: &str) -> Invocation {
    Invocation {
        program: "darktable-cli".to_string(),
        arguments: vec![input.to_string(), output.to_string()],
    }
}

fn content(s: &str) -> Json {
    Json::Object(vec![(
        "content".to_string(),
        Json::Array(vec![Json::Object(vec![
            ("text".to_string(), text(s)),
            ("type".to_string(), text("text")),
        ])]),
    )])
}

fn invalid_params(why: &str) -> ToolOutcome {
    ToolOutcome::Finished(Err(McpImageError::Mcp(format!("Invalid params: {}", why))))
}

#[test]
fn the_default_converter_is_auto() {
    assert_eq!(default_converter(), "auto");
}

#[test]
fn arguments_are_read_from_an_object() {
    assert_eq!(
        ConvertDngToWebpArgs::from_json(&read(
            "{\"input_path\":\"a.dng\",\"output_path\":\"b.webp\",\"converter\":\"darktable\"}"
        )),
        Ok(args("a.dng", "b.webp", "darktable"))
    );
}

#[test]
fn a_missing_converter_means_auto() {
    assert_eq!(
        ConvertDngToWebpArgs::from_json(&read(
            "{\"input_path\":\"a.dng\",\"output_path\":\"b.webp\",\"extra\":1}"
        )),
        Ok(args("a.dng", "b.webp", "auto"))
    );
}

#[test]
fn missing_paths_are_reported() {
    assert_eq!(
        ConvertDngToWebpArgs::from_json(&read("{}")),
        Err("missing field `input_path`".to_string())
    );
    assert_eq!(
        ConvertDngToWebpArgs::from_json(&read("{\"output_path\":\"b\"}")),
        Err("missing field `input_path`".to_string())
    );
    assert_eq!(
        ConvertDngToWebpArgs::from_json(&read("{\"input_path\":\"a\"}")),
        Err("missing field `output_path`".to_string())
    );
}

#[test]
fn members_of_the_wrong_type_are_reported_first() {
    assert_eq!(
        ConvertDngToWebpArgs::from_json(&read("{\"input_path\":5,\"output_path\":\"b\"}")),
        Err("invalid type for `input_path`, expected a string".to_string())
    );
    assert_eq!(
        ConvertDngToWebpArgs::from_json(&read("{\"input_path\":\"a\",\"output_path\":null}")),
        Err("invalid type for `output_path`, expected a string".to_string())
    );
    assert_eq!(
        ConvertDngToWebpArgs::from_json(&read("{\"converter\":null}")),
        Err("invalid type for `converter`, expected a string".to_string())
    );
    assert_eq!(
        ConvertDngToWebpArgs::from_json(&read("{\"converter\":[],\"input_path\":1}")),
        Err("invalid type for `converter`, expected a string".to_string())
    );
}

#[test]
fn arguments_that_are_no_object_are_refused() {
    for line in ["null", "5", "\"x\"", "[]", "[\"a.dng\",\"b.webp\"]", "true"] {
        assert_eq!(
            ConvertDngToWebpArgs::from_json(&read(line)),
            Err("invalid type, expected an object".to_string())
        );
        assert_eq!(
            CheckConvertersArgs::from_json(&read(line)),
            Err("invalid type, expected an object".to_string())
        );
    }
    assert_eq!(CheckConvertersArgs::from_json(&read("{}")), Ok(CheckConvertersArgs {}));
    assert_eq!(CheckConvertersArgs::from_json(&read("{\"a\":1}")), Ok(CheckConvertersArgs {}));
}

#[test]
fn results_are_written_as_documents() {
    let result = ConversionResult {
        success: true,
        message: "done".to_string(),
        output_path: "o.webp".to_string(),
    };
    assert_eq!(
        result.to_json(),
        read("{\"message\":\"done\",\"output_path\":\"o.webp\",\"success\":true}")
    );
    let info = ConverterInfo { name: "darktable".to_string(), available: false };
    assert_eq!(info.to_json(), read("{\"available\":false,\"name\":\"darktable\"}"));
}

#[test]
fn check_results_count_what_is_available() {
    let result = CheckConvertersResult::new(vec![
        ConverterInfo { name: "a".to_string(), available: true },
        ConverterInfo { name: "b".to_string(), available: false },
        ConverterInfo { name: "c".to_string(), available: true },
    ]);
    assert_eq!(result.available_count, 2);
    assert_eq!(result.converters.len(), 3);
    assert_eq!(
        result.to_json(),
        read(
            "{\"available_count\":2,\"converters\":[{\"available\":true,\"name\":\"a\"},{\"available\":false,\"name\":\"b\"},{\"available\":true,\"name\":\"c\"}]}"
        )
    );
    assert_eq!(
        result.to_text(),
        "Available converters:\n- a: Available\n- b: Not available\n- c: Available\n\nTotal available: 2"
    );
    let none = CheckConvertersResult::new(vec![]);
    assert_eq!(none.available_count, 0);
    assert_eq!(none.to_text(), "Available converters:\n\nTotal available: 0");
}

#[test]
fn check_converters_says_what_the_survey_found() {
    let h = handler();
    assert_eq!(
        h.check_converters(CheckConvertersArgs {}, &survey(true, false, "", false)),
        Ok(read(
            "{\"available_count\":1,\"converters\":[{\"available\":true,\"name\":\"imagemagick\"},{\"available\":false,\"name\":\"darktable\"}]}"
        ))
    );
    assert_eq!(
        ImageHandler::found_converters(&survey(true, true, "", false)).available_count,
        2
    );
}

#[test]
fn check_converters_with_nothing_installed() {
    let h = handler();
    let outcome = h.handle_tool_call("check_converters", read("{}"), &survey(false, false, "", false));
    assert_eq!(
        outcome,
        ToolOutcome::Finished(Ok(content(
            "Available converters:\n- imagemagick: Not available\n- darktable: Not available\n\nTotal available: 0"
        )))
    );
}

#[test]
fn check_converters_answers_the_same_when_asked_again() {
    let h = handler();
    let first = h.handle_tool_call("check_converters", read("{}"), &survey(true, false, "a", true));
    let second = h.handle_tool_call("check_converters", read("{}"), &survey(true, false, "b", false));
    assert_eq!(first, second);
    assert_eq!(
        first,
        ToolOutcome::Finished(Ok(content(
            "Available converters:\n- imagemagick: Available\n- darktable: Not available\n\nTotal available: 1"
        )))
    );
}

#[test]
fn check_converters_on_this_host_lists_both() {
    let h = ImageHandler::new();
    let here = h.survey("");
    let text = ImageHandler::found_converters(&here).to_text();
    assert!(text.starts_with("Available converters:\n- imagemagick: "));
    assert!(text.contains("\n- darktable: "));
    assert_eq!(here.registry.len(), 2);
    assert_eq!(here.input_path, "");
    assert!(!here.input_exists);
}

#[test]
fn surveys_look_for_the_input() {
    let h = handler();
    assert!(h.survey("/").input_exists);
    assert!(!h.survey("/no/such/dir/for/sure/x.dng").input_exists);
    assert_eq!(h.survey("/x y.dng").input_path, "/x y.dng");
    let blank = h.unsurveyed("p");
    assert_eq!(blank, Survey {
        imagemagick: false,
        darktable: false,
        registry: vec![false, false],
        input_path: "p".to_string(),
        input_exists: false,
    });
}

#[test]
fn a_named_converter_must_have_been_found() {
    let h = handler();
    assert_eq!(
        h.convert_dng_to_webp(args("a.dng", "b.webp", "imagemagick"), &survey(false, true, "a.dng", true)),
        ToolOutcome::Finished(Err(McpImageError::ConverterNotAvailable(
            "ImageMagick is not available".to_string()
        )))
    );
    assert_eq!(
        h.convert_dng_to_webp(args("a.dng", "b.webp", "darktable"), &survey(true, false, "a.dng", true)),
        ToolOutcome::Finished(Err(McpImageError::ConverterNotAvailable(
            "darktable-cli is not available".to_string()
        )))
    );
}

#[test]
fn a_named_converter_is_the_only_one_tried() {
    let h = handler();
    let s = survey(true, true, "a.dng", true);
    let pending = match h.convert_dng_to_webp(args("a.dng", "b.webp", "imagemagick"), &s) {
        ToolOutcome::Pending(pending) => pending,
        other => panic!("not pending: {:?}", other),
    };
    assert_eq!(pending.invocation.program, "convert7");
    assert_eq!(pending.args, args("a.dng", "b.webp", "imagemagick"));
    assert_eq!(
        h.resume_conversion(pending, &exited(false, "", "bad"), &s),
        ToolOutcome::Finished(Err(McpImageError::ConversionFailed(
            "ImageMagick conversion failed: bad".to_string()
        )))
    );
}

#[test]
fn an_unknown_converter_name_means_auto() {
    let h = handler();
    let s = survey(true, true, "a.dng", true);
    let pending = match h.convert_dng_to_webp(args("a.dng", "b.webp", "gimp"), &s) {
        ToolOutcome::Pending(pending) => pending,
        other => panic!("not pending: {:?}", other),
    };
    assert_eq!(pending.index, 0);
    assert_eq!(pending.invocation.program, "magick");
    let next = match h.resume_conversion(pending, &exited(false, "", "bad"), &s) {
        ToolOutcome::Pending(pending) => pending,
        other => panic!("not pending: {:?}", other),
    };
    assert_eq!(next.index, 1);
    assert_eq!(next.invocation, darktable_line("a.dng", "b.webp"));
    assert_eq!(
        h.resume_conversion(next, &exited(true, "", ""), &s),
        ToolOutcome::Finished(Ok(read(
            "{\"message\":\"Successfully converted a.dng to b.webp using auto\",\"output_path\":\"b.webp\",\"success\":true}"
        )))
    );
}

#[test]
fn a_success_names_the_converter_and_both_paths() {
    let h = handler();
    let s = survey(true, true, "in put.DNG", true);
    let pending = PendingCall {
        args: args("in put.DNG", "out/x.webp", "darktable"),
        index: 0,
        invocation: darktable_line("in put.DNG", "out/x.webp"),
    };
    assert_eq!(
        h.resume_tool_call(pending, &exited(true, "", ""), &s),
        ToolOutcome::Finished(Ok(content(
            "Successfully converted in put.DNG to out/x.webp using darktable"
        )))
    );
}

#[test]
fn a_wrong_extension_fails_before_anything_is_run() {
    let h = handler();
    let found = survey(true, true, "a.jpg", true);
    for converter in ["auto", "imagemagick", "darktable", "other"] {
        assert_eq!(
            h.convert_dng_to_webp(args("a.jpg", "b.webp", converter), &found),
            ToolOutcome::Finished(Err(McpImageError::InvalidInput(
                "Input file must be a DNG file".to_string()
            )))
        );
    }
    assert_eq!(
        h.handle_tool_call(
            "convert_dng_to_webp",
            read("{\"input_path\":\"a.dn\",\"output_path\":\"b.webp\"}"),
            &survey(false, true, "a.dn", true)
        ),
        ToolOutcome::Finished(Err(McpImageError::InvalidInput(
            "Input file must be a DNG file".to_string()
        )))
    );
}

#[test]
fn a_missing_file_is_reported_before_its_extension() {
    let h = handler();
    assert_eq!(
        h.convert_dng_to_webp(args("a.jpg", "b.webp", "auto"), &survey(true, false, "a.jpg", false)),
        ToolOutcome::Finished(Err(McpImageError::FileNotFound("a.jpg".to_string())))
    );
}

#[test]
fn nothing_found_is_reported_before_the_input_is_looked_at() {
    let h = handler();
    assert_eq!(
        h.convert_dng_to_webp(args("a.jpg", "b.webp", "auto"), &survey(false, false, "a.jpg", false)),
        ToolOutcome::Finished(Err(McpImageError::ConverterNotAvailable(
            "No image converter available".to_string()
        )))
    );
}

#[test]
fn invalid_arguments_are_invalid_params() {
    let h = handler();
    let s = survey(true, true, "", false);
    assert_eq!(
        h.handle_tool_call("convert_dng_to_webp", read("{}"), &s),
        invalid_params("missing field `input_path`")
    );
    assert_eq!(
        h.handle_tool_call("convert_dng_to_webp", read("[]"), &s),
        invalid_params("invalid type, expected an object")
    );
    assert_eq!(
        h.handle_tool_call("check_converters", read("null"), &s),
        invalid_params("invalid type, expected an object")
    );
}

#[test]
fn an_unknown_tool_is_refused() {
    let h = handler();
    assert_eq!(
        h.handle_tool_call("resize", read("{}"), &survey(true, true, "", false)),
        ToolOutcome::Finished(Err(McpImageError::Mcp("Unknown tool: resize".to_string())))
    );
    assert_eq!(
        h.handle_tool_call("", read("{}"), &survey(true, true, "", false)),
        ToolOutcome::Finished(Err(McpImageError::Mcp("Unknown tool: ".to_string())))
    );
}

#[test]
fn a_call_that_must_run_something_is_pending() {
    let h = handler();
    let outcome = h.handle_tool_call(
        "convert_dng_to_webp",
        read("{\"input_path\":\"a.dng\",\"output_path\":\"b.webp\",\"converter\":\"darktable\"}"),
        &survey(false, true, "a.dng", true),
    );
    assert_eq!(
        outcome,
        ToolOutcome::Pending(PendingCall {
            args: args("a.dng", "b.webp", "darktable"),
            index: 0,
            invocation: darktable_line("a.dng", "b.webp"),
        })
    );
}

#[test]
fn the_convert_schema_names_its_parameters() {
    let schema = ImageHandler::get_convert_tool_schema();
    assert_eq!(
        schema,
        read(
            "{\"name\":\"convert_dng_to_webp\",\"description\":\"Convert DNG image to WebP format without loss\",\"inputSchema\":{\"type\":\"object\",\"properties\":{\"input_path\":{\"type\":\"string\",\"description\":\"Path to DNG file\"},\"output_path\":{\"type\":\"string\",\"description\":\"Path for WebP output\"},\"converter\":{\"type\":\"string\",\"enum\":[\"auto\",\"imagemagick\",\"darktable\"],\"default\":\"auto\",\"description\":\"Which converter to use (auto selects the best available)\"}},\"required\":[\"input_path\",\"output_path\"]}}"
        )
    );
}

#[test]
fn the_check_schema_has_no_parameters() {
    assert_eq!(
        ImageHandler::get_check_tool_schema(),
        read(
            "{\"name\":\"check_converters\",\"description\":\"Check which image converters are available on the system\",\"inputSchema\":{\"type\":\"object\",\"properties\":{}}}"
        )
    );
}

#[test]
fn the_handler_of_this_host_knows_both_converters() {
    let h = ImageHandler::new();
    let s = Survey {
        imagemagick: true,
        darktable: true,
        registry: vec![false, true],
        input_path: "a.dng".to_string(),
        input_exists: true,
    };
    assert_eq!(
        h.convert_dng_to_webp(args("a.dng", "b.webp", "auto"), &s),
        ToolOutcome::Pending(PendingCall {
            args: args("a.dng", "b.webp", "auto"),
            index: 1,
            invocation: darktable_line("a.dng", "b.webp"),
        })
    );
}
