//! The registry: all known converters in descending order of priority,
//! tried one after the other until one succeeds.

use super::imagemagick::chosen_command;
use super::{
    checked, concluded, has_dng_extension, Conversion, ConversionView, ConverterModel,
    DarktableConverter, ImageConverter, ImageMagickConverter, ProcessReport, ProcessReportView,
    Survey, SurveyView,
};
use crate::error::{Failure, McpImageError};
use vstd::prelude::*;
use vstd::string::StringExecFns;

verus! {

/// A converter of one of the known kinds.
#[derive(Debug, PartialEq, Eq)]
pub enum Converter {
    ImageMagick(ImageMagickConverter),
    Darktable(DarktableConverter),
}

impl View for Converter {
    type V = ConverterModel;

    open spec fn view(&self) -> ConverterModel {
        match self {
            Converter::ImageMagick(c) => c@,
            Converter::Darktable(c) => c@,
        }
    }
}

impl ImageConverter for Converter {
    open spec fn name_view(&self) -> Seq<char> {
        self@.name()
    }

    open spec fn rank(&self) -> u8 {
        self@.priority()
    }

    open spec fn started(
        &self,
        input: Seq<char>,
        output: Seq<char>,
        survey: SurveyView,
    ) -> ConversionView {
        self@.start(input, output, survey.input_exists)
    }

    open spec fn resumed(
        &self,
        index: int,
        report: ProcessReportView,
        input: Seq<char>,
        output: Seq<char>,
        survey: SurveyView,
    ) -> ConversionView {
        self@.finish(report)
    }

    fn convert_dng_to_webp(&self, input: &str, output: &str, survey: &Survey) -> (c: Conversion)
        ensures
            c@ == self@.start(input@, output@, survey@.input_exists),
    {
        match self {
            Converter::ImageMagick(c) => c.convert_dng_to_webp(input, output, survey),
            Converter::Darktable(c) => c.convert_dng_to_webp(input, output, survey),
        }
    }

    fn resume(
        &self,
        index: usize,
        report: &ProcessReport,
        input: &str,
        output: &str,
        survey: &Survey,
    ) -> (c: Conversion)
        ensures
            c@ == self@.finish(report@),
    {
        match self {
            Converter::ImageMagick(c) => c.resume(index, report, input, output, survey),
            Converter::Darktable(c) => c.resume(index, report, input, output, survey),
        }
    }

    fn is_available(&self) -> bool {
        match self {
            Converter::ImageMagick(c) => c.is_available(),
            Converter::Darktable(c) => c.is_available(),
        }
    }

    fn name(&self) -> (n: &'static str)
        ensures
            n@ == self@.name(),
    {
        match self {
            Converter::ImageMagick(c) => c.name(),
            Converter::Darktable(c) => c.name(),
        }
    }

    fn priority(&self) -> (p: u8)
        ensures
            p == self@.priority(),
    {
        match self {
            Converter::ImageMagick(c) => c.priority(),
            Converter::Darktable(c) => c.priority(),
        }
    }
}

/// The models of a list of converters.
pub open spec fn models(converters: Seq<Converter>) -> Seq<ConverterModel> {
    Seq::new(converters.len(), |i: int| converters[i]@)
}

/// The failure that an optional error stands for.
pub open spec fn failure_view(error: Option<McpImageError>) -> Option<Failure> {
    match error {
        Some(e) => Some(e@),
        None => None,
    }
}

/// `sorted`, which is in descending order of priority, with `c` put behind
/// the last converter whose priority is not below its own.
pub open spec fn insert_by_priority(
    sorted: Seq<ConverterModel>,
    c: ConverterModel,
) -> Seq<ConverterModel>
    decreases sorted.len(),
{
    if sorted.len() == 0 {
        seq![c]
    } else if sorted.last().priority() >= c.priority() {
        sorted.push(c)
    } else {
        insert_by_priority(sorted.drop_last(), c).push(sorted.last())
    }
}

/// `list` in descending order of priority; converters of one priority keep
/// the order that they have in `list`.
pub open spec fn by_priority(list: Seq<ConverterModel>) -> Seq<ConverterModel>
    decreases list.len(),
{
    if list.len() == 0 {
        Seq::empty()
    } else {
        insert_by_priority(by_priority(list.drop_last()), list.last())
    }
}

/// No converter stands before one of higher priority.
pub open spec fn descending(registry: Seq<ConverterModel>) -> bool {
    forall|i: int, j: int|
        0 <= i < j < registry.len() ==> registry[i].priority() >= registry[j].priority()
}

/// What the registry does from the converter at `from` on: it passes over
/// the converters that were not found, starts each one that was, and goes on
/// to the next where one fails.  When none is left it fails with the last
/// failure, or with `ConverterNotAvailable` where there was none.
pub open spec fn attempt_from(
    registry: Seq<ConverterModel>,
    from: int,
    input: Seq<char>,
    output: Seq<char>,
    survey: SurveyView,
    last: Option<Failure>,
) -> ConversionView
    decreases registry.len() - from,
{
    if from < 0 || from >= registry.len() {
        ConversionView::Done(
            Err(
                match last {
                    Some(e) => e,
                    None => Failure::ConverterNotAvailable("No image converter available"@),
                },
            ),
        )
    } else if !survey.found(from) {
        attempt_from(registry, from + 1, input, output, survey, last)
    } else {
        match registry[from].start(input, output, survey.input_exists) {
            ConversionView::Run { index, invocation } => ConversionView::Run {
                index: from,
                invocation,
            },
            ConversionView::Done(Ok(_)) => ConversionView::Done(Ok(())),
            ConversionView::Done(Err(e)) => attempt_from(
                registry,
                from + 1,
                input,
                output,
                survey,
                Some(e),
            ),
        }
    }
}

/// What the registry does after the report on the command line that it asked
/// for at `index`: it is done where the report is good, and goes on to the
/// next converter where it is not.
pub open spec fn resumed_at(
    registry: Seq<ConverterModel>,
    index: int,
    report: ProcessReportView,
    input: Seq<char>,
    output: Seq<char>,
    survey: SurveyView,
) -> ConversionView {
    if 0 <= index < registry.len() {
        match registry[index].finish(report) {
            ConversionView::Done(Err(e)) => attempt_from(
                registry,
                index + 1,
                input,
                output,
                survey,
                Some(e),
            ),
            other => other,
        }
    } else {
        ConversionView::Done(Err(Failure::ConverterNotAvailable("No image converter available"@)))
    }
}

/// The names of the converters that were found, in the registry's order.
pub open spec fn names_found(registry: Seq<ConverterModel>, found: Seq<bool>) -> Seq<Seq<char>>
    decreases registry.len(),
{
    if registry.len() == 0 {
        Seq::empty()
    } else {
        let before = names_found(registry.drop_last(), found);
        if registry.len() <= found.len() && found[registry.len() - 1] {
            before.push(registry.last().name())
        } else {
            before
        }
    }
}

/// The characters of each name of a list.
pub open spec fn names_view(names: Seq<&'static str>) -> Seq<Seq<char>> {
    Seq::new(names.len(), |i: int| names[i]@)
}

/// The registry: all known converters, in descending order of priority.
/// It selects automatically, and falls back on the next converter when one
/// fails.
#[derive(Debug, PartialEq, Eq)]
pub struct AutoConverter {
    converters: Vec<Converter>,
}

impl View for AutoConverter {
    type V = Seq<ConverterModel>;

    closed spec fn view(&self) -> Seq<ConverterModel> {
        models(self.converters@)
    }
}

/// The registry of the two known converters, where ImageMagick goes by
/// `command`.
pub open spec fn known_converters(command: Seq<char>) -> Seq<ConverterModel> {
    seq![ConverterModel::ImageMagick { command }, ConverterModel::Darktable]
}

/// At least one converter was found.
pub open spec fn any_found(found: Seq<bool>) -> bool {
    exists|i: int| 0 <= i < found.len() && found[i]
}

impl AutoConverter {
    #[verifier::type_invariant]
    spec fn in_order(self) -> bool {
        descending(models(self.converters@))
    }

    /// The registry of the two known converters, ImageMagick first.
    pub fn new() -> (registry: AutoConverter)
        ensures
            exists|convert7_found: bool, magick_found: bool|
                registry@ == known_converters(
                    #[trigger] chosen_command(convert7_found, magick_found),
                ),
            descending(registry@),
    {
        let mut converters: Vec<Converter> = Vec::new();
        converters.push(Converter::ImageMagick(ImageMagickConverter::new()));
        converters.push(Converter::Darktable(DarktableConverter::new()));
        proof {
            let command = converters@[0]@->command;
            assert(models(converters@) =~= known_converters(command));
            ordered_stays(known_converters(command));
        }
        AutoConverter::with_converters(converters)
    }

    /// The registry of the given converters, put in descending order of
    /// priority; converters of one priority keep their order.
    pub fn with_converters(converters: Vec<Converter>) -> (registry: AutoConverter)
        ensures
            registry@ == by_priority(models(converters@)),
            descending(registry@),
    {
        proof {
            by_priority_orders(models(converters@));
        }
        let ghost all = models(converters@);
        let mut rest = converters;
        let mut sorted: Vec<Converter> = Vec::new();
        let ghost mut done: int = 0;
        assert(all.take(0) =~= Seq::<ConverterModel>::empty());
        assert(models(sorted@) =~= Seq::<ConverterModel>::empty());
        while rest.len() > 0
            invariant
                0 <= done <= all.len(),
                models(rest@) == all.skip(done),
                models(sorted@) == by_priority(all.take(done)),
            decreases rest.len(),
        {
            assert(models(rest@).len() == rest@.len());
            assert(models(rest@)[0] == rest@[0]@);
            let ghost earlier = rest@;
            let c = rest.remove(0);
            let rank = c.priority();
            let mut at: usize = sorted.len();
            while at > 0 && sorted[at - 1].priority() < rank
                invariant
                    at <= sorted.len(),
                    rank == c@.priority(),
                    forall|k: int|
                        at <= k < sorted.len() ==> models(sorted@)[k].priority() < c@.priority(),
                decreases at,
            {
                at -= 1;
            }
            proof {
                assert(c@ == all[done]) by {
                    assert(all.skip(done)[0] == all[done]);
                }
                insert_lands_at(models(sorted@), c@, at as int);
                assert(all.take(done + 1).drop_last() =~= all.take(done));
                assert(all.take(done + 1).last() == all[done]);
            }
            let ghost before = models(sorted@);
            let ghost model = c@;
            sorted.insert(at, c);
            proof {
                assert(models(sorted@) =~= before.insert(at as int, model));
                assert forall|k: int| 0 <= k < rest@.len() implies models(rest@)[k] == all.skip(
                    done + 1,
                )[k] by {
                    assert(rest@[k] == earlier[k + 1]);
                    assert(models(earlier)[k + 1] == all.skip(done)[k + 1]);
                }
                assert(models(rest@) =~= all.skip(done + 1));
                done = done + 1;
            }
        }
        assert(all.take(done) =~= all);
        AutoConverter { converters: sorted }
    }

    /// How many converters the registry holds.
    pub fn len(&self) -> (n: usize)
        ensures
            n == self@.len(),
    {
        self.converters.len()
    }

    /// Whether `found` marks at least one converter.
    pub fn any_found(found: &Vec<bool>) -> (any: bool)
        ensures
            any == any_found(found@),
    {
        let mut i: usize = 0;
        while i < found.len()
            invariant
                i <= found.len(),
                forall|k: int| 0 <= k < i ==> !found@[k],
            decreases found.len() - i,
        {
            if found[i] {
                return true;
            }
            i += 1;
        }
        false
    }

    /// The answer of a survey that found no converter.
    pub fn none_found(&self) -> (found: Vec<bool>)
        ensures
            found@.len() == self@.len(),
            forall|i: int| 0 <= i < found@.len() ==> !found@[i],
    {
        let mut found: Vec<bool> = Vec::new();
        let mut i: usize = 0;
        while i < self.converters.len()
            invariant
                i <= self.converters.len(),
                found@.len() == i,
                forall|k: int| 0 <= k < i ==> !found@[k],
            decreases self.converters.len() - i,
        {
            found.push(false);
            i += 1;
        }
        found
    }

    /// Asks each converter whether it can be found right now.
    pub fn survey(&self) -> (found: Vec<bool>)
        ensures
            found@.len() == self@.len(),
    {
        let mut found: Vec<bool> = Vec::new();
        let mut i: usize = 0;
        while i < self.converters.len()
            invariant
                i <= self.converters.len(),
                found@.len() == i,
            decreases self.converters.len() - i,
        {
            found.push(self.converters[i].is_available());
            i += 1;
        }
        found
    }

    /// The names of the converters that `found` marks, in order of priority.
    pub fn names_found(&self, found: &Vec<bool>) -> (names: Vec<&'static str>)
        ensures
            names_view(names@) == names_found(self@, found@),
            descending(self@),
    {
        proof {
            use_type_invariant(self);
        }
        let mut names: Vec<&'static str> = Vec::new();
        let mut i: usize = 0;
        assert(self@.take(0) =~= Seq::<ConverterModel>::empty());
        assert(names_view(names@) =~= Seq::<Seq<char>>::empty());
        while i < self.converters.len()
            invariant
                i <= self.converters.len(),
                names_view(names@) == names_found(self@.take(i as int), found@),
            decreases self.converters.len() - i,
        {
            let ghost before = names_view(names@);
            assert(self@.take(i + 1).drop_last() =~= self@.take(i as int));
            assert(self@.take(i + 1).last() == self.converters@[i as int]@);
            if i < found.len() && found[i] {
                names.push(self.converters[i].name());
                assert(names_view(names@) =~= before.push(self.converters@[i as int]@.name()));
            }
            i += 1;
        }
        assert(self@.take(i as int) =~= self@);
        names
    }

    /// The names of the converters that can be found right now, in order of
    /// priority.
    pub fn available_converters(&self) -> (names: Vec<&'static str>)
        ensures
            exists|found: Seq<bool>|
                found.len() == self@.len() && names_view(names@) == #[trigger] names_found(
                    self@,
                    found,
                ),
            descending(self@),
    {
        let found = self.survey();
        self.names_found(&found)
    }

    /// Goes through the converters from the one at `from` on, and starts the
    /// first that was found and whose checks pass.
    pub fn attempt_from(
        &self,
        from: usize,
        input: &str,
        output: &str,
        survey: &Survey,
        last: Option<McpImageError>,
    ) -> (c: Conversion)
        ensures
            c@ == attempt_from(self@, from as int, input@, output@, survey@, failure_view(last)),
    {
        let ghost goal = attempt_from(
            self@,
            from as int,
            input@,
            output@,
            survey@,
            failure_view(last),
        );
        let mut latest = last;
        let mut i: usize = from;
        while i < self.converters.len()
            invariant
                goal == attempt_from(
                    self@,
                    from as int,
                    input@,
                    output@,
                    survey@,
                    failure_view(last),
                ),
                goal == attempt_from(
                    self@,
                    i as int,
                    input@,
                    output@,
                    survey@,
                    failure_view(latest),
                ),
            decreases self.converters.len() - i,
        {
            assert(self@[i as int] == self.converters@[i as int]@);
            if i < survey.registry.len() && survey.registry[i] {
                assert(survey@.found(i as int));
                let step = self.converters[i].convert_dng_to_webp(input, output, survey);
                assert(step@ == self@[i as int].start(input@, output@, survey@.input_exists));
                match step {
                    Conversion::Run { index, invocation } => {
                        return Conversion::Run { index: i, invocation };
                    },
                    Conversion::Done(Ok(_)) => {
                        return Conversion::Done(Ok(()));
                    },
                    Conversion::Done(Err(e)) => {
                        latest = Some(e);
                    },
                }
            }
            i += 1;
        }
        match latest {
            Some(e) => Conversion::Done(Err(e)),
            None => Conversion::Done(
                Err(
                    McpImageError::ConverterNotAvailable(
                        String::from_str("No image converter available"),
                    ),
                ),
            ),
        }
    }
}

impl ImageConverter for AutoConverter {
    open spec fn name_view(&self) -> Seq<char> {
        "auto"@
    }

    open spec fn rank(&self) -> u8 {
        50
    }

    open spec fn started(
        &self,
        input: Seq<char>,
        output: Seq<char>,
        survey: SurveyView,
    ) -> ConversionView {
        attempt_from(self@, 0, input, output, survey, None)
    }

    open spec fn resumed(
        &self,
        index: int,
        report: ProcessReportView,
        input: Seq<char>,
        output: Seq<char>,
        survey: SurveyView,
    ) -> ConversionView {
        resumed_at(self@, index, report, input, output, survey)
    }

    fn convert_dng_to_webp(&self, input: &str, output: &str, survey: &Survey) -> (c: Conversion)
        ensures
            c@ == attempt_from(self@, 0, input@, output@, survey@, None),
    {
        self.attempt_from(0, input, output, survey, None)
    }

    fn resume(
        &self,
        index: usize,
        report: &ProcessReport,
        input: &str,
        output: &str,
        survey: &Survey,
    ) -> (c: Conversion)
        ensures
            c@ == resumed_at(self@, index as int, report@, input@, output@, survey@),
    {
        if index < self.converters.len() {
            match self.converters[index].resume(0, report, input, output, survey) {
                Conversion::Done(Err(e)) => self.attempt_from(
                    index + 1,
                    input,
                    output,
                    survey,
                    Some(e),
                ),
                other => other,
            }
        } else {
            Conversion::Done(
                Err(
                    McpImageError::ConverterNotAvailable(
                        String::from_str("No image converter available"),
                    ),
                ),
            )
        }
    }

    /// Whether at least one converter can be found right now.
    fn is_available(&self) -> (available: bool)
        ensures
            exists|found: Seq<bool>|
                found.len() == self@.len() && available == #[trigger] any_found(found),
    {
        let found = self.survey();
        AutoConverter::any_found(&found)
    }

    fn name(&self) -> (n: &'static str)
        ensures
            n@ == "auto"@,
    {
        "auto"
    }

    fn priority(&self) -> (p: u8)
        ensures
            p == 50,
    {
        50
    }
}

/// How the trial of one converter ends, if the converter is tried at all:
/// it is passed over where it was not found, it fails where the input fails
/// the checks, and else it ends as the report on its command line says.
pub open spec fn trial(
    converter: ConverterModel,
    found: bool,
    input: Seq<char>,
    input_exists: bool,
    report: ProcessReportView,
) -> Option<Result<(), Failure>> {
    if !found {
        None
    } else {
        match checked(input, input_exists) {
            Err(e) => Some(Err(e)),
            Ok(_) => Some(concluded(converter.label(), report)),
        }
    }
}

/// The trials of all converters of a registry, where `reports[i]` is what
/// the command line of the converter at `i` comes to.
pub open spec fn trials(
    registry: Seq<ConverterModel>,
    input: Seq<char>,
    survey: SurveyView,
    reports: Seq<ProcessReportView>,
) -> Seq<Option<Result<(), Failure>>> {
    Seq::new(
        registry.len(),
        |i: int| trial(registry[i], survey.found(i), input, survey.input_exists, reports[i]),
    )
}

/// The rule of fallback over trials in their order, from `from` on: the
/// first success ends the matter; where there is none, the last failure is
/// the result; where nothing was tried, no converter is available.
pub open spec fn fallback(
    trials: Seq<Option<Result<(), Failure>>>,
    from: int,
    last: Option<Failure>,
) -> Result<(), Failure>
    decreases trials.len() - from,
{
    if from < 0 || from >= trials.len() {
        Err(
            match last {
                Some(e) => e,
                None => Failure::ConverterNotAvailable("No image converter available"@),
            },
        )
    } else {
        match trials[from] {
            None => fallback(trials, from + 1, last),
            Some(Ok(_)) => Ok(()),
            Some(Err(e)) => fallback(trials, from + 1, Some(e)),
        }
    }
}

/// What a conversion comes to when the host runs every command line that
/// the registry asks for, from the converter at `from` on, and reports
/// `reports[i]` for the converter at `i`.
pub open spec fn driven(
    registry: Seq<ConverterModel>,
    from: int,
    input: Seq<char>,
    output: Seq<char>,
    survey: SurveyView,
    last: Option<Failure>,
    reports: Seq<ProcessReportView>,
) -> Result<(), Failure>
    decreases registry.len() - from,
{
    match attempt_from(registry, from, input, output, survey, last) {
        ConversionView::Done(r) => r,
        ConversionView::Run { index, invocation } => if from <= index < registry.len() {
            match resumed_at(registry, index, reports[index], input, output, survey) {
                ConversionView::Done(r) => r,
                ConversionView::Run { .. } => driven(
                    registry,
                    index + 1,
                    input,
                    output,
                    survey,
                    match concluded(registry[index].label(), reports[index]) {
                        Err(e) => Some(e),
                        Ok(_) => None,
                    },
                    reports,
                ),
            }
        } else {
            Err(Failure::ConverterNotAvailable("No image converter available"@))
        },
    }
}

/// Putting a converter into a registry in descending order keeps the
/// order, and adds that converter and nothing else.
pub proof fn insert_keeps_order(sorted: Seq<ConverterModel>, c: ConverterModel)
    requires
        descending(sorted),
    ensures
        descending(insert_by_priority(sorted, c)),
        insert_by_priority(sorted, c).to_multiset() == sorted.to_multiset().insert(c),
    decreases sorted.len(),
{
    broadcast use vstd::seq_lib::group_to_multiset_ensures;

    let placed = insert_by_priority(sorted, c);
    if sorted.len() == 0 {
        assert(sorted =~= Seq::empty());
        assert(placed =~= Seq::<ConverterModel>::empty().push(c));
    } else if sorted.last().priority() >= c.priority() {
    } else {
        let front = sorted.drop_last();
        let inner = insert_by_priority(front, c);
        insert_keeps_order(front, c);
        assert(front.push(sorted.last()) =~= sorted);
        assert(inner.to_multiset().insert(sorted.last()) =~= sorted.to_multiset().insert(c));
        assert forall|i: int, j: int| 0 <= i < j < placed.len() implies placed[i].priority()
            >= placed[j].priority() by {
            if j == placed.len() - 1 {
                assert(inner.to_multiset().count(inner[i]) > 0);
                if inner[i] != c {
                    assert(front.to_multiset().count(inner[i]) > 0);
                    let k = choose|k: int| 0 <= k < front.len() && front[k] == inner[i];
                    assert(sorted[k] == inner[i]);
                }
            }
        }
    }
}

/// A registry is in descending order of priority, and holds the converters
/// that it was made of and no others.
pub proof fn by_priority_orders(list: Seq<ConverterModel>)
    ensures
        descending(by_priority(list)),
        by_priority(list).to_multiset() == list.to_multiset(),
    decreases list.len(),
{
    broadcast use vstd::seq_lib::group_to_multiset_ensures;

    if list.len() == 0 {
        assert(list =~= Seq::empty());
    } else {
        by_priority_orders(list.drop_last());
        insert_keeps_order(by_priority(list.drop_last()), list.last());
        assert(list.drop_last().push(list.last()) =~= list);
    }
}

/// A list that is in descending order already is left as it is, so that
/// converters of one priority keep their places.
pub proof fn ordered_stays(list: Seq<ConverterModel>)
    requires
        descending(list),
    ensures
        by_priority(list) == list,
    decreases list.len(),
{
    if list.len() == 0 {
        assert(list =~= Seq::empty());
    } else {
        ordered_stays(list.drop_last());
        assert(list.drop_last().push(list.last()) =~= list);
    }
}

proof fn insert_lands_at(sorted: Seq<ConverterModel>, c: ConverterModel, at: int)
    requires
        0 <= at <= sorted.len(),
        forall|k: int| at <= k < sorted.len() ==> sorted[k].priority() < c.priority(),
        at > 0 ==> sorted[at - 1].priority() >= c.priority(),
    ensures
        insert_by_priority(sorted, c) == sorted.insert(at, c),
    decreases sorted.len() - at,
{
    if at == sorted.len() {
        if sorted.len() == 0 {
            assert(sorted.insert(0, c) =~= seq![c]);
        } else {
            assert(sorted.insert(at, c) =~= sorted.push(c));
        }
    } else {
        insert_lands_at(sorted.drop_last(), c, at);
        assert(sorted.drop_last().insert(at, c).push(sorted.last()) =~= sorted.insert(at, c));
    }
}

/// A command line is only ever asked for on behalf of a converter at or
/// behind the place where the registry started to look, one that was found,
/// and for an input that passed the checks.
pub proof fn asked_in_order(
    registry: Seq<ConverterModel>,
    from: int,
    input: Seq<char>,
    output: Seq<char>,
    survey: SurveyView,
    last: Option<Failure>,
)
    requires
        0 <= from,
    ensures
        attempt_from(registry, from, input, output, survey, last) matches ConversionView::Run {
            index,
            invocation,
        } ==> {
            &&& from <= index < registry.len()
            &&& survey.found(index)
            &&& checked(input, survey.input_exists) is Ok
            &&& invocation == registry[index].invocation(input, output)
        },
    decreases registry.len() - from,
{
    if from < registry.len() {
        if !survey.found(from) {
            asked_in_order(registry, from + 1, input, output, survey, last);
        } else {
            match registry[from].start(input, output, survey.input_exists) {
                ConversionView::Done(Err(e)) => {
                    asked_in_order(registry, from + 1, input, output, survey, Some(e));
                },
                _ => {},
            }
        }
    }
}

/// Driven to its end, the registry comes to what the rule of fallback
/// gives for the trials of its converters: it goes on after a failure, it
/// stops at the first success, and it reports the last failure.
pub proof fn driven_is_fallback(
    registry: Seq<ConverterModel>,
    from: int,
    input: Seq<char>,
    output: Seq<char>,
    survey: SurveyView,
    last: Option<Failure>,
    reports: Seq<ProcessReportView>,
)
    requires
        0 <= from,
    ensures
        driven(registry, from, input, output, survey, last, reports) == fallback(
            trials(registry, input, survey, reports),
            from,
            last,
        ),
    decreases registry.len() - from,
{
    let all = trials(registry, input, survey, reports);
    if from < registry.len() {
        assert(all[from] == trial(
            registry[from],
            survey.found(from),
            input,
            survey.input_exists,
            reports[from],
        ));
        if !survey.found(from) {
            driven_is_fallback(registry, from + 1, input, output, survey, last, reports);
            asked_in_order(registry, from + 1, input, output, survey, last);
            same_drive(registry, from, from + 1, input, output, survey, last, last, reports);
        } else {
            match checked(input, survey.input_exists) {
                Err(e) => {
                    driven_is_fallback(registry, from + 1, input, output, survey, Some(e), reports);
                    asked_in_order(registry, from + 1, input, output, survey, Some(e));
                    same_drive(
                        registry,
                        from,
                        from + 1,
                        input,
                        output,
                        survey,
                        last,
                        Some(e),
                        reports,
                    );
                },
                Ok(_) => {
                    match concluded(registry[from].label(), reports[from]) {
                        Ok(_) => {},
                        Err(e) => {
                            driven_is_fallback(
                                registry,
                                from + 1,
                                input,
                                output,
                                survey,
                                Some(e),
                                reports,
                            );
                            asked_in_order(registry, from + 1, input, output, survey, Some(e));
                        },
                    }
                },
            }
        }
    }
}

/// Two places to start from that lead to the same first step lead to the
/// same end.
proof fn same_drive(
    registry: Seq<ConverterModel>,
    from: int,
    later: int,
    input: Seq<char>,
    output: Seq<char>,
    survey: SurveyView,
    last: Option<Failure>,
    then: Option<Failure>,
    reports: Seq<ProcessReportView>,
)
    requires
        0 <= from <= later,
        attempt_from(registry, from, input, output, survey, last) == attempt_from(
            registry,
            later,
            input,
            output,
            survey,
            then,
        ),
        attempt_from(registry, later, input, output, survey, then) matches ConversionView::Run {
            index,
            ..
        } ==> later <= index < registry.len(),
    ensures
        driven(registry, from, input, output, survey, last, reports) == driven(
            registry,
            later,
            input,
            output,
            survey,
            then,
            reports,
        ),
{
}

/// Where no converter was found, the registry fails with
/// `ConverterNotAvailable`, however many converters it holds, and asks for
/// no command line.
pub proof fn none_found_is_not_available(
    registry: Seq<ConverterModel>,
    from: int,
    input: Seq<char>,
    output: Seq<char>,
    survey: SurveyView,
)
    requires
        0 <= from,
        forall|i: int| 0 <= i < registry.len() ==> !survey.found(i),
    ensures
        attempt_from(registry, from, input, output, survey, None) == ConversionView::Done(
            Err(Failure::ConverterNotAvailable("No image converter available"@)),
        ),
    decreases registry.len() - from,
{
    if from < registry.len() {
        none_found_is_not_available(registry, from + 1, input, output, survey);
    }
}

/// Fallback acts on failure, not only on absence: where the first of two
/// converters was found and its command line fails, the second, which was
/// found too, is asked next; and where its command line succeeds, the
/// conversion has succeeded.
pub proof fn failure_falls_back(
    registry: Seq<ConverterModel>,
    input: Seq<char>,
    output: Seq<char>,
    survey: SurveyView,
    first: ProcessReportView,
    second: ProcessReportView,
)
    requires
        registry.len() == 2,
        survey.found(0),
        survey.found(1),
        checked(input, survey.input_exists) is Ok,
        concluded(registry[0].label(), first) is Err,
        concluded(registry[1].label(), second) is Ok,
    ensures
        attempt_from(registry, 0, input, output, survey, None) == (ConversionView::Run {
            index: 0,
            invocation: registry[0].invocation(input, output),
        }),
        resumed_at(registry, 0, first, input, output, survey) == (ConversionView::Run {
            index: 1,
            invocation: registry[1].invocation(input, output),
        }),
        resumed_at(registry, 1, second, input, output, survey) == ConversionView::Done(Ok(())),
        driven(registry, 0, input, output, survey, None, seq![first, second]) == Ok::<
            (),
            Failure,
        >(()),
{
    let reports = seq![first, second];
    let e = concluded(registry[0].label(), first)->Err_0;
    assert(attempt_from(registry, 2, input, output, survey, Some(e)) is Done);
    assert(attempt_from(registry, 1, input, output, survey, Some(e)) == (ConversionView::Run {
        index: 1,
        invocation: registry[1].invocation(input, output),
    }));
    driven_is_fallback(registry, 0, input, output, survey, None, reports);
    let all = trials(registry, input, survey, reports);
    assert(all[0] == Some(Err::<(), Failure>(e)));
    assert(all[1] == Some(Ok::<(), Failure>(())));
    assert(fallback(all, 1, Some(e)) == Ok::<(), Failure>(()));
}

/// An input without the extension of a DNG file never has a command line
/// asked for.
pub proof fn wrong_extension_runs_nothing(
    registry: Seq<ConverterModel>,
    from: int,
    input: Seq<char>,
    output: Seq<char>,
    survey: SurveyView,
    last: Option<Failure>,
)
    requires
        0 <= from,
        !has_dng_extension(input),
    ensures
        attempt_from(registry, from, input, output, survey, last) is Done,
{
    asked_in_order(registry, from, input, output, survey, last);
}

/// With an input that exists but has not the extension of a DNG file, the
/// registry fails with `InvalidInput` as soon as one converter was found.
pub proof fn wrong_extension_is_invalid(
    registry: Seq<ConverterModel>,
    from: int,
    input: Seq<char>,
    output: Seq<char>,
    survey: SurveyView,
    last: Option<Failure>,
)
    requires
        0 <= from,
        survey.input_exists,
        !has_dng_extension(input),
        last == Some(Failure::InvalidInput("Input file must be a DNG file"@)) || exists|i: int|
            from <= i < registry.len() && survey.found(i),
    ensures
        attempt_from(registry, from, input, output, survey, last) == ConversionView::Done(
            Err(Failure::InvalidInput("Input file must be a DNG file"@)),
        ),
    decreases registry.len() - from,
{
    if from < registry.len() {
        if survey.found(from) {
            wrong_extension_is_invalid(
                registry,
                from + 1,
                input,
                output,
                survey,
                Some(Failure::InvalidInput("Input file must be a DNG file"@)),
            );
        } else {
            wrong_extension_is_invalid(registry, from + 1, input, output, survey, last);
        }
    }
}

} // verus!
