//! The result recorded for one crate, and the rule that derives it from the
//! crate's category and report.

use crate::category::{lemma_name_is_recognized, Category, ResultKind};
use crate::error::{Error, ErrorView};
use vstd::prelude::*;

verus! {

/// The outcome of one crate.
#[derive(Clone, Debug, PartialEq, Eq)]
pub enum BuildResult {
    Success,
    /// `output` is the text of the crate's report.
    TestFail { output: String },
    /// `output` is the text of the crate's report.
    TestSkipped { output: String },
    /// `output` is the text of the crate's report.
    BuildFail { output: String },
}

/// A [`BuildResult`] with its report as a character sequence.
pub enum BuildResultView {
    Success,
    TestFail { output: Seq<char> },
    TestSkipped { output: Seq<char> },
    BuildFail { output: Seq<char> },
}

impl View for BuildResult {
    type V = BuildResultView;

    open spec fn view(&self) -> BuildResultView {
        match self {
            BuildResult::Success => BuildResultView::Success,
            BuildResult::TestFail { output } => BuildResultView::TestFail { output: output@ },
            BuildResult::TestSkipped { output } => BuildResultView::TestSkipped {
                output: output@,
            },
            BuildResult::BuildFail { output } => BuildResultView::BuildFail { output: output@ },
        }
    }
}

impl BuildResultView {
    /// The result of the given kind that carries `output`. A success carries
    /// nothing.
    pub open spec fn of(kind: ResultKind, output: Seq<char>) -> BuildResultView {
        match kind {
            ResultKind::Success => BuildResultView::Success,
            ResultKind::TestFail => BuildResultView::TestFail { output },
            ResultKind::TestSkipped => BuildResultView::TestSkipped { output },
            ResultKind::BuildFail => BuildResultView::BuildFail { output },
        }
    }

    pub open spec fn kind(self) -> ResultKind {
        match self {
            BuildResultView::Success => ResultKind::Success,
            BuildResultView::TestFail { .. } => ResultKind::TestFail,
            BuildResultView::TestSkipped { .. } => ResultKind::TestSkipped,
            BuildResultView::BuildFail { .. } => ResultKind::BuildFail,
        }
    }
}

impl BuildResult {
    /// Which of the four kinds this result is.
    pub fn kind(&self) -> (kind: ResultKind)
        ensures
            kind == self@.kind(),
    {
        match self {
            BuildResult::Success => ResultKind::Success,
            BuildResult::TestFail { .. } => ResultKind::TestFail,
            BuildResult::TestSkipped { .. } => ResultKind::TestSkipped,
            BuildResult::BuildFail { .. } => ResultKind::BuildFail,
        }
    }
}

/// Whether a crate under the category named `category` is classified only
/// after its report has been read. This holds of every name but the three
/// that stand for a success, unrecognized names included: those are rejected
/// once the report is in hand.
pub open spec fn report_needed(category: Seq<char>) -> bool {
    !(Category::named(category) matches Some(known) && known.spec_kind()
        == ResultKind::Success)
}

/// What the text of a report makes of a crate under the category named
/// `category`: the result of the category's kind with the text unchanged, or
/// the rejection of a name that is none of the ten.
pub open spec fn classified(category: Seq<char>, output: Seq<char>) -> Result<
    BuildResultView,
    ErrorView,
> {
    match Category::named(category) {
        Some(known) => Ok(BuildResultView::of(known.spec_kind(), output)),
        None => Err(ErrorView::InvalidCategory { category }),
    }
}

/// The text of a report that was looked for, if one was found.
pub open spec fn found(report: Option<String>) -> Option<Seq<char>> {
    match report {
        Some(text) => Some(text@),
        None => None,
    }
}

/// What the crate `krate` under the category named `category` is classified
/// as. `report` is the text of the report in the crate's first version
/// directory, or `None` where the crate's directory holds no entry.
///
/// Under the three success categories the crate is a success whatever its
/// directory holds. Under every other name a crate without a version
/// directory is an error, and only a crate that has a report gets as far as
/// having its category's name told apart.
pub open spec fn classified_crate(
    category: Seq<char>,
    krate: Seq<char>,
    report: Option<Seq<char>>,
) -> Result<BuildResultView, ErrorView> {
    if !report_needed(category) {
        Ok(BuildResultView::Success)
    } else {
        match report {
            None => Err(ErrorView::NoVersionFound { category, krate }),
            Some(output) => classified(category, output),
        }
    }
}

/// Whether `result` is `expected`, up to the views of the values inside.
pub open spec fn yields(
    result: Result<BuildResult, Error>,
    expected: Result<BuildResultView, ErrorView>,
) -> bool {
    match result {
        Ok(value) => expected == Ok::<BuildResultView, ErrorView>(value@),
        Err(error) => expected == Err::<BuildResultView, ErrorView>(error@),
    }
}

/// Decides whether the report of a crate under `category` has to be read.
/// Where it returns `false` the crate's result is `Success` and nothing
/// below the crate's directory is looked at.
pub fn needs_report(category: &str) -> (needed: bool)
    ensures
        needed == report_needed(category@),
{
    match Category::from_name(category) {
        Some(known) => match known.kind() {
            ResultKind::Success => false,
            _ => true,
        },
        None => true,
    }
}

/// Classifies the crate `krate` under `category`.
///
/// `report` is what was found below the crate's directory: the text of the
/// report in its first version directory, or `None` where the directory
/// holds no entry. A caller that has not looked passes `None`: under a
/// success category, which [`needs_report`] tells beforehand, the answer is
/// `Success` either way.
pub fn builds(category: &str, krate: &str, report: Option<String>) -> (result: Result<
    BuildResult,
    Error,
>)
    ensures
        yields(result, classified_crate(category@, krate@, found(report))),
{
    match Category::from_name(category) {
        Some(known) => match (known.kind(), report) {
            (ResultKind::Success, _) => Ok(BuildResult::Success),
            (_, None) => Err(
                Error::NoVersionFound { category: category.to_owned(), krate: krate.to_owned() },
            ),
            (ResultKind::BuildFail, Some(output)) => Ok(BuildResult::BuildFail { output }),
            (ResultKind::TestFail, Some(output)) => Ok(BuildResult::TestFail { output }),
            (ResultKind::TestSkipped, Some(output)) => Ok(BuildResult::TestSkipped { output }),
        },
        None => match report {
            None => Err(
                Error::NoVersionFound { category: category.to_owned(), krate: krate.to_owned() },
            ),
            Some(_) => Err(Error::InvalidCategory { category: category.to_owned() }),
        },
    }
}

/// A crate under `fixed`, `test-pass` or `spurious-fixed` is a success,
/// whether or not anything was found below its directory, and its report is
/// never asked for. No other name is settled that way.
pub proof fn lemma_success_needs_no_report(
    category: Seq<char>,
    krate: Seq<char>,
    report: Option<Seq<char>>,
)
    ensures
        !report_needed(category) <==> (category == "fixed"@ || category == "test-pass"@
            || category == "spurious-fixed"@),
        !report_needed(category) ==> classified_crate(category, krate, report) == Ok::<
            BuildResultView,
            ErrorView,
        >(BuildResultView::Success),
{
    lemma_name_is_recognized(Category::Fixed);
    lemma_name_is_recognized(Category::TestPass);
    lemma_name_is_recognized(Category::SpuriousFixed);
}

/// A crate under `broken`, `build-fail`, `error`, `regressed` or
/// `spurious-regressed` is a build failure that carries its report unchanged.
pub proof fn lemma_build_failure_carries_report(
    category: Seq<char>,
    krate: Seq<char>,
    output: Seq<char>,
)
    requires
        category == "broken"@ || category == "build-fail"@ || category == "error"@ || category
            == "regressed"@ || category == "spurious-regressed"@,
    ensures
        report_needed(category),
        classified_crate(category, krate, Some(output)) == Ok::<BuildResultView, ErrorView>(
            BuildResultView::BuildFail { output },
        ),
{
    lemma_name_is_recognized(Category::Broken);
    lemma_name_is_recognized(Category::BuildFail);
    lemma_name_is_recognized(Category::Error);
    lemma_name_is_recognized(Category::Regressed);
    lemma_name_is_recognized(Category::SpuriousRegressed);
}

/// A crate under `test-fail` is a test failure, one under `test-skipped` a
/// skipped test, and each carries its report unchanged.
pub proof fn lemma_test_outcome_carries_report(
    category: Seq<char>,
    krate: Seq<char>,
    output: Seq<char>,
)
    ensures
        category == "test-fail"@ ==> report_needed(category) && classified_crate(
            category,
            krate,
            Some(output),
        ) == Ok::<BuildResultView, ErrorView>(BuildResultView::TestFail { output }),
        category == "test-skipped"@ ==> report_needed(category) && classified_crate(
            category,
            krate,
            Some(output),
        ) == Ok::<BuildResultView, ErrorView>(BuildResultView::TestSkipped { output }),
{
    lemma_name_is_recognized(Category::TestFail);
    lemma_name_is_recognized(Category::TestSkipped);
}

/// A crate whose report was read under a name outside the ten is rejected by
/// that name, whatever the report holds. No other crate with a report is
/// rejected.
pub proof fn lemma_unrecognized_is_rejected(
    category: Seq<char>,
    krate: Seq<char>,
    output: Seq<char>,
)
    ensures
        classified_crate(category, krate, Some(output)) is Err <==> Category::named(category)
            is None,
        Category::named(category) is None ==> report_needed(category) && classified_crate(
            category,
            krate,
            Some(output),
        ) == Err::<BuildResultView, ErrorView>(ErrorView::InvalidCategory { category }),
{
}

/// Under every name but `fixed`, `test-pass` and `spurious-fixed`, recognized
/// or not, a crate whose directory holds no version directory is an error
/// that names the category and the crate. Under those three it is a success.
pub proof fn lemma_missing_version_is_rejected(category: Seq<char>, krate: Seq<char>)
    ensures
        classified_crate(category, krate, None) == if category == "fixed"@ || category
            == "test-pass"@ || category == "spurious-fixed"@ {
            Ok::<BuildResultView, ErrorView>(BuildResultView::Success)
        } else {
            Err::<BuildResultView, ErrorView>(ErrorView::NoVersionFound { category, krate })
        },
{
    lemma_success_needs_no_report(category, krate, None);
}

} // verus!
