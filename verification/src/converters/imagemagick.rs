use super::{
    check_input, conclude, on_search_path, Conversion, ConversionView, ConverterModel,
    ImageConverter, Invocation, ProcessReport, ProcessReportView, Survey, SurveyView,
};
use vstd::prelude::*;
use vstd::string::StringExecFns;

verus! {

/// The converter that runs ImageMagick, under the name that was found when
/// the converter was made.
#[derive(Debug, PartialEq, Eq)]
pub struct ImageMagickConverter {
    command: String,
}

impl View for ImageMagickConverter {
    type V = ConverterModel;

    closed spec fn view(&self) -> ConverterModel {
        ConverterModel::ImageMagick { command: self.command@ }
    }
}

/// The name to run ImageMagick under: the versioned name where it was
/// found, else the generic name where that was found, else the versioned
/// name again, under which the converter will not be available.
pub open spec fn chosen_command(convert7_found: bool, magick_found: bool) -> Seq<char> {
    if convert7_found {
        "convert7"@
    } else if magick_found {
        "magick"@
    } else {
        "convert7"@
    }
}

impl ImageMagickConverter {
    /// Looks for ImageMagick under its two names and keeps the one found.
    pub fn new() -> (converter: ImageMagickConverter)
        ensures
            exists|convert7_found: bool, magick_found: bool|
                converter@ == (ConverterModel::ImageMagick {
                    command: #[trigger] chosen_command(convert7_found, magick_found),
                }),
    {
        let convert7_found = on_search_path("convert7");
        let magick_found = !convert7_found && on_search_path("magick");
        let converter = ImageMagickConverter::from_search(convert7_found, magick_found);
        assert(converter@ == (ConverterModel::ImageMagick {
            command: chosen_command(convert7_found, magick_found),
        }));
        converter
    }

    /// The converter for a host on which the two names were or were not
    /// found.
    pub fn from_search(convert7_found: bool, magick_found: bool) -> (converter:
        ImageMagickConverter)
        ensures
            converter@ == (ConverterModel::ImageMagick {
                command: chosen_command(convert7_found, magick_found),
            }),
    {
        let command = if convert7_found {
            String::from_str("convert7")
        } else if magick_found {
            String::from_str("magick")
        } else {
            String::from_str("convert7")
        };
        ImageMagickConverter { command }
    }

    /// The program that is looked for and run: the name that was kept when
    /// the converter was made.
    pub fn program(&self) -> (program: &str)
        ensures
            program@ == self@.program(),
            self@ == (ConverterModel::ImageMagick { command: program@ }),
    {
        self.command.as_str()
    }

    /// The command line that converts `input` to `output`: lossless, exact,
    /// at the greatest effort, with no partition limit.
    pub fn invocation(&self, input: &str, output: &str) -> (invocation: Invocation)
        ensures
            invocation@ == self@.invocation(input@, output@),
    {
        let mut arguments: Vec<String> = Vec::new();
        arguments.push(String::from_str(input));
        arguments.push(String::from_str("-define"));
        arguments.push(String::from_str("webp:lossless=true"));
        arguments.push(String::from_str("-define"));
        arguments.push(String::from_str("webp:exact=true"));
        arguments.push(String::from_str("-define"));
        arguments.push(String::from_str("webp:method=6"));
        arguments.push(String::from_str("-define"));
        arguments.push(String::from_str("webp:partition-limit=0"));
        arguments.push(String::from_str(output));
        let invocation = Invocation { program: String::from_str(self.program()), arguments };
        assert(invocation@.arguments =~= self@.invocation(input@, output@).arguments);
        invocation
    }
}

impl ImageConverter for ImageMagickConverter {
    open spec fn name_view(&self) -> Seq<char> {
        self@.name()
    }

    open spec fn rank(&self) -> u8 {
        self@.priority()
    }

    open spec fn started(
        &self,
        input: Seq<char>,
        output: Seq<char>,
        survey: SurveyView,
    ) -> ConversionView {
        self@.start(input, output, survey.input_exists)
    }

    open spec fn resumed(
        &self,
        index: int,
        report: ProcessReportView,
        input: Seq<char>,
        output: Seq<char>,
        survey: SurveyView,
    ) -> ConversionView {
        self@.finish(report)
    }

    fn convert_dng_to_webp(&self, input: &str, output: &str, survey: &Survey) -> (c: Conversion)
        ensures
            c@ == self@.start(input@, output@, survey@.input_exists),
    {
        match check_input(input, survey.input_exists) {
            Err(e) => Conversion::Done(Err(e)),
            Ok(_) => Conversion::Run { index: 0, invocation: self.invocation(input, output) },
        }
    }

    fn resume(
        &self,
        _index: usize,
        report: &ProcessReport,
        _input: &str,
        _output: &str,
        _survey: &Survey,
    ) -> (c: Conversion)
        ensures
            c@ == self@.finish(report@),
    {
        Conversion::Done(conclude("ImageMagick conversion failed: ", report))
    }

    fn is_available(&self) -> bool {
        on_search_path(self.program())
    }

    fn name(&self) -> (n: &'static str)
        ensures
            n@ == "imagemagick"@,
    {
        "imagemagick"
    }

    fn priority(&self) -> (p: u8)
        ensures
            p == 60,
    {
        60
    }
}

} // verus!
