use super::{
    check_input, conclude, on_search_path, Conversion, ConversionView, ConverterModel,
    ImageConverter, Invocation, ProcessReport, ProcessReportView, Survey, SurveyView,
};
use vstd::prelude::*;
use vstd::string::StringExecFns;

verus! {

/// The converter that runs `darktable-cli`, which chooses its own encoding.
#[derive(Debug, PartialEq, Eq)]
pub struct DarktableConverter;

impl View for DarktableConverter {
    type V = ConverterModel;

    open spec fn view(&self) -> ConverterModel {
        ConverterModel::Darktable
    }
}

impl DarktableConverter {
    /// The converter; there is nothing to look for when it is made.
    pub fn new() -> (converter: DarktableConverter)
        ensures
            converter@ == ConverterModel::Darktable,
    {
        DarktableConverter
    }

    /// The program that is looked for and run.
    pub fn program(&self) -> (program: &'static str)
        ensures
            program@ == self@.program(),
    {
        "darktable-cli"
    }

    /// The command line that converts `input` to `output`.
    pub fn invocation(&self, input: &str, output: &str) -> (invocation: Invocation)
        ensures
            invocation@ == self@.invocation(input@, output@),
    {
        let mut arguments: Vec<String> = Vec::new();
        arguments.push(String::from_str(input));
        arguments.push(String::from_str(output));
        let invocation = Invocation { program: String::from_str(self.program()), arguments };
        assert(invocation@.arguments =~= self@.invocation(input@, output@).arguments);
        invocation
    }
}

impl ImageConverter for DarktableConverter {
    open spec fn name_view(&self) -> Seq<char> {
        self@.name()
    }

    open spec fn rank(&self) -> u8 {
        self@.priority()
    }

    open spec fn started(
        &self,
        input: Seq<char>,
        output: Seq<char>,
        survey: SurveyView,
    ) -> ConversionView {
        self@.start(input, output, survey.input_exists)
    }

    open spec fn resumed(
        &self,
        index: int,
        report: ProcessReportView,
        input: Seq<char>,
        output: Seq<char>,
        survey: SurveyView,
    ) -> ConversionView {
        self@.finish(report)
    }

    fn convert_dng_to_webp(&self, input: &str, output: &str, survey: &Survey) -> (c: Conversion)
        ensures
            c@ == self@.start(input@, output@, survey@.input_exists),
    {
        match check_input(input, survey.input_exists) {
            Err(e) => Conversion::Done(Err(e)),
            Ok(_) => Conversion::Run { index: 0, invocation: self.invocation(input, output) },
        }
    }

    fn resume(
        &self,
        _index: usize,
        report: &ProcessReport,
        _input: &str,
        _output: &str,
        _survey: &Survey,
    ) -> (c: Conversion)
        ensures
            c@ == self@.finish(report@),
    {
        Conversion::Done(conclude("darktable-cli conversion failed: ", report))
    }

    fn is_available(&self) -> bool {
        on_search_path(self.program())
    }

    fn name(&self) -> (n: &'static str)
        ensures
            n@ == "darktable"@,
    {
        "darktable"
    }

    fn priority(&self) -> (p: u8)
        ensures
            p == 40,
    {
        40
    }
}

} // verus!
