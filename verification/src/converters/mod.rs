//! The converters, and the registry that tries them in order of priority.
//!
//! A conversion runs an external program, which this library never does
//! itself.  A converter answers with a [`Conversion`]: either the end of the
//! matter, or a command line for the host to run.  The host runs it and
//! hands the [`ProcessReport`] back through `resume`.

mod darktable;
mod imagemagick;
pub mod registry;

pub use darktable::DarktableConverter;
pub use imagemagick::{chosen_command, ImageMagickConverter};
pub use registry::{AutoConverter, Converter};

use crate::error::{Failure, McpImageError};
use crate::text::{chars_of, join};
use vstd::prelude::*;
use vstd::string::StringExecFns;

verus! {

/// One command line.
#[derive(Debug, PartialEq, Eq)]
pub struct Invocation {
    pub program: String,
    pub arguments: Vec<String>,
}

/// The mathematical value of an `Invocation`.
pub struct InvocationView {
    pub program: Seq<char>,
    pub arguments: Seq<Seq<char>>,
}

/// The characters of each string of a list.
pub open spec fn strings_view(strings: Seq<String>) -> Seq<Seq<char>> {
    Seq::new(strings.len(), |i: int| strings[i]@)
}

impl View for Invocation {
    type V = InvocationView;

    open spec fn view(&self) -> InvocationView {
        InvocationView { program: self.program@, arguments: strings_view(self.arguments@) }
    }
}

/// What the host saw of a command line that it was given to run.
#[derive(Debug, PartialEq, Eq)]
pub enum ProcessReport {
    /// The program ran and ended.
    Exited { success: bool, stdout: Vec<u8>, stderr: Vec<u8> },
    /// The output directory could not be made, or the program not started.
    Failed { reason: String },
}

/// The mathematical value of a `ProcessReport`.
pub enum ProcessReportView {
    Exited { success: bool, stdout: Seq<u8>, stderr: Seq<u8> },
    Failed { reason: Seq<char> },
}

impl View for ProcessReport {
    type V = ProcessReportView;

    open spec fn view(&self) -> ProcessReportView {
        match self {
            ProcessReport::Exited { success, stdout, stderr } => ProcessReportView::Exited {
                success: *success,
                stdout: stdout@,
                stderr: stderr@,
            },
            ProcessReport::Failed { reason } => ProcessReportView::Failed { reason: reason@ },
        }
    }
}

/// What one look at the host found.
#[derive(Debug, PartialEq, Eq)]
pub struct Survey {
    /// Whether the handler's own ImageMagick converter was found.
    pub imagemagick: bool,
    /// Whether the handler's own Darktable converter was found.
    pub darktable: bool,
    /// For each converter of the registry, in its order, whether it was found.
    pub registry: Vec<bool>,
    /// The path that was looked for.
    pub input_path: String,
    /// Whether a file stands at `input_path`.
    pub input_exists: bool,
}

/// The mathematical value of a `Survey`.
pub struct SurveyView {
    pub imagemagick: bool,
    pub darktable: bool,
    pub registry: Seq<bool>,
    pub input_path: Seq<char>,
    pub input_exists: bool,
}

impl SurveyView {
    /// Whether the registry's converter at `index` was found.
    pub open spec fn found(self, index: int) -> bool {
        0 <= index < self.registry.len() && self.registry[index]
    }
}

impl View for Survey {
    type V = SurveyView;

    open spec fn view(&self) -> SurveyView {
        SurveyView {
            imagemagick: self.imagemagick,
            darktable: self.darktable,
            registry: self.registry@,
            input_path: self.input_path@,
            input_exists: self.input_exists,
        }
    }
}

/// Where a conversion stands.
#[derive(Debug, PartialEq, Eq)]
pub enum Conversion {
    /// The conversion is over.
    Done(Result<(), McpImageError>),
    /// The host is to run `invocation` for the converter at `index`, and to
    /// report what came of it.
    Run { index: usize, invocation: Invocation },
}

/// The mathematical value of a `Conversion`.
pub enum ConversionView {
    Done(Result<(), Failure>),
    Run { index: int, invocation: InvocationView },
}

impl View for Conversion {
    type V = ConversionView;

    open spec fn view(&self) -> ConversionView {
        match self {
            Conversion::Done(Ok(_)) => ConversionView::Done(Ok(())),
            Conversion::Done(Err(e)) => ConversionView::Done(Err(e@)),
            Conversion::Run { index, invocation } => ConversionView::Run {
                index: *index as int,
                invocation: invocation@,
            },
        }
    }
}

/// The text that `String::from_utf8_lossy` makes of bytes.
pub uninterp spec fn lossy_text(bytes: Seq<u8>) -> Seq<char>;

/// Decodes bytes with `String::from_utf8_lossy`, which puts U+FFFD in the
/// place of what is not UTF-8.
#[verifier::external_body]
pub(crate) fn decode_lossy(bytes: &Vec<u8>) -> (text: String)
    ensures
        text@ == lossy_text(bytes@),
{
    String::from_utf8_lossy(bytes).into_owned()
}

/// Asks `which::which` for `program` and says whether it found an
/// executable.  The answer depends on the search path and on the disk, so
/// nothing is claimed of it.
#[verifier::external_body]
pub(crate) fn on_search_path(program: &str) -> bool {
    which::which(program).is_ok()
}

/// Asks `std::path::Path::exists` whether anything stands at `path`.  The
/// answer depends on the disk, so nothing is claimed of it.
#[verifier::external_body]
pub(crate) fn path_exists(path: &str) -> bool {
    std::path::Path::new(path).exists()
}

/// The path ends in a dot and the letters `d`, `n`, `g`, each in either
/// case.
pub open spec fn ends_in_dng(path: Seq<char>) -> bool {
    let n = path.len();
    &&& n >= 4
    &&& path[n - 4] == '.'
    &&& (path[n - 3] == 'd' || path[n - 3] == 'D')
    &&& (path[n - 2] == 'n' || path[n - 2] == 'N')
    &&& (path[n - 1] == 'g' || path[n - 1] == 'G')
}

/// The path names a file with some stem and the extension `dng`, compared
/// without regard to case.
pub open spec fn has_dng_extension(path: Seq<char>) -> bool {
    &&& ends_in_dng(path)
    &&& path.len() >= 5
    &&& path[path.len() - 5] != '/'
}

/// Whether the path names a file with some stem and the extension `dng`,
/// compared without regard to case.
pub fn is_dng_path(path: &str) -> (dng: bool)
    ensures
        dng == has_dng_extension(path@),
{
    let chars = chars_of(path);
    let n = chars.len();
    if n < 5 {
        return false;
    }
    let d = chars[n - 3];
    let g = chars[n - 1];
    let letter = chars[n - 2];
    chars[n - 5] != '/' && chars[n - 4] == '.' && (d == 'd' || d == 'D') && (letter == 'n'
        || letter == 'N') && (g == 'g' || g == 'G')
}

/// What the checks before a conversion say of the input.
pub open spec fn checked(input: Seq<char>, input_exists: bool) -> Result<(), Failure> {
    if !input_exists {
        Err(Failure::FileNotFound(input))
    } else if !has_dng_extension(input) {
        Err(Failure::InvalidInput("Input file must be a DNG file"@))
    } else {
        Ok(())
    }
}

/// The checks before a conversion: the input exists, and it is a DNG file.
pub fn check_input(input: &str, input_exists: bool) -> (r: Result<(), McpImageError>)
    ensures
        match r {
            Ok(_) => checked(input@, input_exists) is Ok,
            Err(e) => checked(input@, input_exists) == Err::<(), Failure>(e@),
        },
{
    if !input_exists {
        Err(McpImageError::FileNotFound(String::from_str(input)))
    } else if !is_dng_path(input) {
        Err(McpImageError::InvalidInput(String::from_str("Input file must be a DNG file")))
    } else {
        Ok(())
    }
}

/// What a program that has ended means for a converter whose failures
/// start with `label`: success where the program says so, and else a
/// failure that carries what the program wrote to its standard error, or
/// what it wrote to its standard output where it wrote no error.
pub open spec fn judged(
    label: Seq<char>,
    success: bool,
    output: Seq<char>,
    errors: Seq<char>,
) -> Result<(), Failure> {
    if success {
        Ok(())
    } else if errors.len() == 0 {
        Err(Failure::ConversionFailed(label + output))
    } else {
        Err(Failure::ConversionFailed(label + errors))
    }
}

/// What a report means for a converter whose failures start with `label`.
pub open spec fn concluded(label: Seq<char>, report: ProcessReportView) -> Result<(), Failure> {
    match report {
        ProcessReportView::Exited { success, stdout, stderr } => judged(
            label,
            success,
            lossy_text(stdout),
            lossy_text(stderr),
        ),
        ProcessReportView::Failed { reason } => Err(Failure::Io(reason)),
    }
}

/// Judges a program that has ended, by its exit and by the texts that it
/// wrote to its standard output and to its standard error.
pub fn judge(label: &str, success: bool, output: &str, errors: &str) -> (r: Result<
    (),
    McpImageError,
>)
    ensures
        match r {
            Ok(_) => judged(label@, success, output@, errors@) is Ok,
            Err(e) => judged(label@, success, output@, errors@) == Err::<(), Failure>(e@),
        },
{
    if success {
        Ok(())
    } else if errors.is_empty() {
        Err(McpImageError::ConversionFailed(join(label, output)))
    } else {
        Err(McpImageError::ConversionFailed(join(label, errors)))
    }
}

/// Reads a report for a converter whose failures start with `label`.
pub fn conclude(label: &str, report: &ProcessReport) -> (r: Result<(), McpImageError>)
    ensures
        match r {
            Ok(_) => concluded(label@, report@) is Ok,
            Err(e) => concluded(label@, report@) == Err::<(), Failure>(e@),
        },
{
    match report {
        ProcessReport::Exited { success, stdout, stderr } => {
            let output = decode_lossy(stdout);
            let errors = decode_lossy(stderr);
            judge(label, *success, output.as_str(), errors.as_str())
        },
        ProcessReport::Failed { reason } => Err(McpImageError::Io(reason.clone())),
    }
}

/// What a converter is, as far as its behaviour goes.
pub enum ConverterModel {
    /// ImageMagick, run under the name `command`.
    ImageMagick { command: Seq<char> },
    /// Darktable.
    Darktable,
}

impl ConverterModel {
    /// The name by which the converter is chosen and reported.
    pub open spec fn name(self) -> Seq<char> {
        match self {
            ConverterModel::ImageMagick { .. } => "imagemagick"@,
            ConverterModel::Darktable => "darktable"@,
        }
    }

    /// The rank in automatic selection; the higher is tried first.
    pub open spec fn priority(self) -> u8 {
        match self {
            ConverterModel::ImageMagick { .. } => 60,
            ConverterModel::Darktable => 40,
        }
    }

    /// The words that the converter's failures start with.
    pub open spec fn label(self) -> Seq<char> {
        match self {
            ConverterModel::ImageMagick { .. } => "ImageMagick conversion failed: "@,
            ConverterModel::Darktable => "darktable-cli conversion failed: "@,
        }
    }

    /// The program that the converter runs, and that must be found for the
    /// converter to be available.
    pub open spec fn program(self) -> Seq<char> {
        match self {
            ConverterModel::ImageMagick { command } => command,
            ConverterModel::Darktable => "darktable-cli"@,
        }
    }

    /// The command line that converts `input` to `output`.
    pub open spec fn invocation(self, input: Seq<char>, output: Seq<char>) -> InvocationView {
        match self {
            ConverterModel::ImageMagick { command } => InvocationView {
                program: self.program(),
                arguments: seq![
                    input,
                    "-define"@,
                    "webp:lossless=true"@,
                    "-define"@,
                    "webp:exact=true"@,
                    "-define"@,
                    "webp:method=6"@,
                    "-define"@,
                    "webp:partition-limit=0"@,
                    output,
                ],
            },
            ConverterModel::Darktable => InvocationView {
                program: self.program(),
                arguments: seq![input, output],
            },
        }
    }

    /// The start of a conversion: the end of it where the input fails the
    /// checks, else the command line to run.
    pub open spec fn start(
        self,
        input: Seq<char>,
        output: Seq<char>,
        input_exists: bool,
    ) -> ConversionView {
        match checked(input, input_exists) {
            Err(e) => ConversionView::Done(Err(e)),
            Ok(_) => ConversionView::Run { index: 0, invocation: self.invocation(input, output) },
        }
    }

    /// The end of a conversion, from the report on the command line.
    pub open spec fn finish(self, report: ProcessReportView) -> ConversionView {
        ConversionView::Done(concluded(self.label(), report))
    }
}

/// A capability to convert a DNG file to WebP through an external program.
pub trait ImageConverter {
    /// The name, as a mathematical value.
    spec fn name_view(&self) -> Seq<char>;

    /// The priority, as a mathematical value.
    spec fn rank(&self) -> u8;

    /// Where a conversion stands when it starts.
    spec fn started(
        &self,
        input: Seq<char>,
        output: Seq<char>,
        survey: SurveyView,
    ) -> ConversionView;

    /// Where a conversion stands after the report on the command line that
    /// it asked for.
    spec fn resumed(
        &self,
        index: int,
        report: ProcessReportView,
        input: Seq<char>,
        output: Seq<char>,
        survey: SurveyView,
    ) -> ConversionView;

    /// Starts to convert `input` to `output` on a host that looks as
    /// `survey` says.
    fn convert_dng_to_webp(&self, input: &str, output: &str, survey: &Survey) -> (c: Conversion)
        ensures
            c@ == self.started(input@, output@, survey@),
    ;

    /// Goes on with the conversion after the host ran the command line asked
    /// for at `index`.
    fn resume(
        &self,
        index: usize,
        report: &ProcessReport,
        input: &str,
        output: &str,
        survey: &Survey,
    ) -> (c: Conversion)
        ensures
            c@ == self.resumed(index as int, report@, input@, output@, survey@),
    ;

    /// Whether the external program can be found right now.
    fn is_available(&self) -> bool;

    /// The name by which the converter is chosen and reported.
    fn name(&self) -> (n: &'static str)
        ensures
            n@ == self.name_view(),
    ;

    /// The rank in automatic selection; the higher is tried first.
    fn priority(&self) -> (p: u8)
        ensures
            p == self.rank(),
    ;
}

/// A path that does not end in `.dng`, in whatever case, has not the
/// extension of a DNG file.
pub proof fn extension_is_the_ending(path: Seq<char>)
    requires
        !ends_in_dng(path),
    ensures
        !has_dng_extension(path),
{
}

} // verus!
