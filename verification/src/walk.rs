//! The walk over categories and crates, as a machine that is told what the
//! file system holds and answers with what to look at next.
//!
//! The caller owns every directory listing and every file. After each step
//! it does what the [`Action`] asks and hands the outcome back as an
//! [`Event`]. An I/O failure is the caller's to report: it ends the run
//! there and the walk is dropped.

use crate::category::Category;
use crate::error::{Error, ErrorView};
use crate::manifest::{lemma_recorded_size, names_distinct, recorded, AggregateManifest};
use crate::outcome::{builds, classified_crate, found, needs_report, report_needed};
use crate::outcome::{lemma_missing_version_is_rejected, lemma_success_needs_no_report};
use crate::outcome::lemma_unrecognized_is_rejected;
use crate::outcome::{BuildResult, BuildResultView};
use vstd::prelude::*;

verus! {

/// What a directory listing gave when asked for its next entry.
#[derive(Clone, Debug, PartialEq, Eq)]
pub enum Entry {
    /// The listing is exhausted.
    End,
    /// An entry whose name is not valid text.
    NotText,
    /// An entry with this name.
    Name(String),
}

/// What the caller found when it did what the last [`Action`] asked.
#[derive(Clone, Debug, PartialEq, Eq)]
pub enum Event {
    /// The next entry of the root directory.
    Category(Entry),
    /// The next entry of the current category's crate directory.
    Crate(Entry),
    /// The text of the report in the first version directory of the current
    /// crate, or `None` where the crate's directory holds no entry at all.
    Report(Option<String>),
}

/// What the caller is to do next.
#[derive(Clone, Debug, PartialEq, Eq)]
pub enum Action {
    /// Take the next entry of the root directory.
    NextCategory,
    /// Take the next entry of the crate directory of `category`.
    NextCrate { category: String },
    /// Take the first entry of the directory of `krate` under `category`,
    /// whichever the listing yields first, and read the report in it.
    ReadReport { category: String, krate: String },
    /// The walk is complete: write the manifest out.
    Emit,
    /// Give the run up. Nothing is written.
    Abort(Error),
}

/// An [`Entry`] with its name as a character sequence.
pub enum EntryView {
    End,
    NotText,
    Name(Seq<char>),
}

/// An [`Event`] with its names and text as character sequences.
pub enum EventView {
    Category(EntryView),
    Crate(EntryView),
    Report(Option<Seq<char>>),
}

/// An [`Action`] with its names as character sequences.
pub enum ActionView {
    NextCategory,
    NextCrate { category: Seq<char> },
    ReadReport { category: Seq<char>, krate: Seq<char> },
    Emit,
    Abort(ErrorView),
}

impl View for Entry {
    type V = EntryView;

    open spec fn view(&self) -> EntryView {
        match self {
            Entry::End => EntryView::End,
            Entry::NotText => EntryView::NotText,
            Entry::Name(name) => EntryView::Name(name@),
        }
    }
}

impl View for Event {
    type V = EventView;

    open spec fn view(&self) -> EventView {
        match self {
            Event::Category(entry) => EventView::Category(entry@),
            Event::Crate(entry) => EventView::Crate(entry@),
            Event::Report(report) => EventView::Report(found(*report)),
        }
    }
}

impl View for Action {
    type V = ActionView;

    open spec fn view(&self) -> ActionView {
        match self {
            Action::NextCategory => ActionView::NextCategory,
            Action::NextCrate { category } => ActionView::NextCrate { category: category@ },
            Action::ReadReport { category, krate } => ActionView::ReadReport {
                category: category@,
                krate: krate@,
            },
            Action::Emit => ActionView::Emit,
            Action::Abort(error) => ActionView::Abort(error@),
        }
    }
}

/// Where a walk stands.
pub enum PhaseView {
    /// Waiting for the next category.
    Categories,
    /// Waiting for the next crate of `category`.
    Crates { category: Seq<char> },
    /// Waiting for the report of `krate` under `category`.
    Report { category: Seq<char>, krate: Seq<char> },
    /// Every category has been walked.
    Finished,
    /// The run was given up.
    Failed,
}

/// A walk as a mathematical value: where it stands and what it has recorded.
pub struct WalkView {
    pub phase: PhaseView,
    pub manifest: Map<Seq<char>, BuildResultView>,
}

impl WalkView {
    /// The walk that stands at `phase` with the same manifest.
    pub open spec fn at(self, phase: PhaseView) -> WalkView {
        WalkView { phase, manifest: self.manifest }
    }

    /// The walk that waits for the next crate of `category`, with `result`
    /// recorded for `krate`.
    pub open spec fn with_result(
        self,
        category: Seq<char>,
        krate: Seq<char>,
        result: BuildResultView,
    ) -> WalkView {
        WalkView {
            phase: PhaseView::Crates { category },
            manifest: self.manifest.insert(krate, result),
        }
    }

    /// The walk after `event`, and what it asks for next.
    pub open spec fn step(self, event: EventView) -> (WalkView, ActionView) {
        match (self.phase, event) {
            (PhaseView::Categories, EventView::Category(EntryView::End)) => (
                self.at(PhaseView::Finished),
                ActionView::Emit,
            ),
            (PhaseView::Categories, EventView::Category(EntryView::NotText)) => (
                self.at(PhaseView::Failed),
                ActionView::Abort(ErrorView::CategoryNotText),
            ),
            (PhaseView::Categories, EventView::Category(EntryView::Name(category))) => (
                self.at(PhaseView::Crates { category }),
                ActionView::NextCrate { category },
            ),
            (PhaseView::Crates { category }, EventView::Crate(EntryView::End)) => (
                self.at(PhaseView::Categories),
                ActionView::NextCategory,
            ),
            (PhaseView::Crates { category }, EventView::Crate(EntryView::NotText)) => (
                self.at(PhaseView::Failed),
                ActionView::Abort(ErrorView::CrateNotText { category }),
            ),
            (PhaseView::Crates { category }, EventView::Crate(EntryView::Name(krate))) => {
                if report_needed(category) {
                    (
                        self.at(PhaseView::Report { category, krate }),
                        ActionView::ReadReport { category, krate },
                    )
                } else {
                    (
                        self.with_result(category, krate, BuildResultView::Success),
                        ActionView::NextCrate { category },
                    )
                }
            },
            (PhaseView::Report { category, krate }, EventView::Report(report)) => {
                match classified_crate(category, krate, report) {
                    Ok(result) => (
                        self.with_result(category, krate, result),
                        ActionView::NextCrate { category },
                    ),
                    Err(error) => (self.at(PhaseView::Failed), ActionView::Abort(error)),
                }
            },
            _ => (self.at(PhaseView::Failed), ActionView::Abort(ErrorView::UnexpectedEvent)),
        }
    }

    /// Whether the walk, if it waits for a report, waits for one that its
    /// category needs. A walk that has just started does.
    pub open spec fn awaits_needed_report(self) -> bool {
        self.phase matches PhaseView::Report { category, .. } ==> report_needed(category)
    }

    /// The walk after `events`, taken in from the first to the last.
    pub open spec fn run(self, events: Seq<EventView>) -> WalkView
        decreases events.len(),
    {
        if events.len() == 0 {
            self
        } else {
            self.run(events.drop_last()).step(events.last()).0
        }
    }

    /// The name and result that the walk records when it takes in `event`,
    /// if it records anything.
    pub open spec fn records(self, event: EventView) -> Option<(Seq<char>, BuildResultView)> {
        match (self.phase, event) {
            (PhaseView::Crates { category }, EventView::Crate(EntryView::Name(krate))) => {
                if report_needed(category) {
                    None
                } else {
                    Some((krate, BuildResultView::Success))
                }
            },
            (PhaseView::Report { category, krate }, EventView::Report(report)) => {
                match classified_crate(category, krate, report) {
                    Ok(result) => Some((krate, result)),
                    Err(_) => None,
                }
            },
            _ => None,
        }
    }

    /// Every name and result recorded while taking in `events`, in order.
    pub open spec fn history(self, events: Seq<EventView>) -> Seq<(Seq<char>, BuildResultView)>
        decreases events.len(),
    {
        if events.len() == 0 {
            Seq::empty()
        } else {
            let earlier = self.history(events.drop_last());
            match self.run(events.drop_last()).records(events.last()) {
                Some(pair) => earlier.push(pair),
                None => earlier,
            }
        }
    }

    /// What the walk asks for after the last of `events`.
    pub open spec fn asks(self, events: Seq<EventView>) -> ActionView
        recommends
            events.len() > 0,
    {
        self.run(events.drop_last()).step(events.last()).1
    }
}

/// Where a walk stands, with the names it is working on.
enum Phase {
    Categories,
    Crates { category: String },
    Report { category: String, krate: String },
    Finished,
    Failed,
}

impl View for Phase {
    type V = PhaseView;

    closed spec fn view(&self) -> PhaseView {
        match self {
            Phase::Categories => PhaseView::Categories,
            Phase::Crates { category } => PhaseView::Crates { category: category@ },
            Phase::Report { category, krate } => PhaseView::Report {
                category: category@,
                krate: krate@,
            },
            Phase::Finished => PhaseView::Finished,
            Phase::Failed => PhaseView::Failed,
        }
    }
}

/// One run over a report tree.
pub struct Walk {
    phase: Phase,
    manifest: AggregateManifest,
}

impl View for Walk {
    type V = WalkView;

    closed spec fn view(&self) -> WalkView {
        WalkView { phase: self.phase@, manifest: self.manifest@ }
    }
}

impl Walk {
    /// A walk that has seen nothing, and the first thing to do.
    pub fn new() -> (start: (Walk, Action))
        ensures
            start.0@ == (WalkView { phase: PhaseView::Categories, manifest: Map::empty() }),
            start.1@ == ActionView::NextCategory,
    {
        (Walk { phase: Phase::Categories, manifest: AggregateManifest::new() }, Action::NextCategory)
    }

    /// Takes in what the caller found and says what to do next.
    pub fn step(&mut self, event: Event) -> (action: Action)
        ensures
            (final(self)@, action@) == old(self)@.step(event@),
    {
        // The walk stays failed unless an arm below says where it goes on.
        let mut phase = Phase::Failed;
        std::mem::swap(&mut self.phase, &mut phase);
        match (phase, event) {
            (Phase::Categories, Event::Category(Entry::End)) => {
                self.phase = Phase::Finished;
                Action::Emit
            },
            (Phase::Categories, Event::Category(Entry::NotText)) => Action::Abort(
                Error::CategoryNotText,
            ),
            (Phase::Categories, Event::Category(Entry::Name(category))) => {
                let action = Action::NextCrate { category: category.clone() };
                self.phase = Phase::Crates { category };
                action
            },
            (Phase::Crates { .. }, Event::Crate(Entry::End)) => {
                self.phase = Phase::Categories;
                Action::NextCategory
            },
            (Phase::Crates { category }, Event::Crate(Entry::NotText)) => Action::Abort(
                Error::CrateNotText { category },
            ),
            (Phase::Crates { category }, Event::Crate(Entry::Name(krate))) => {
                if needs_report(category.as_str()) {
                    let action = Action::ReadReport {
                        category: category.clone(),
                        krate: krate.clone(),
                    };
                    self.phase = Phase::Report { category, krate };
                    action
                } else {
                    self.manifest.record(krate, BuildResult::Success);
                    let action = Action::NextCrate { category: category.clone() };
                    self.phase = Phase::Crates { category };
                    action
                }
            },
            (Phase::Report { category, krate }, Event::Report(report)) => {
                match builds(category.as_str(), krate.as_str(), report) {
                    Ok(result) => {
                        self.manifest.record(krate, result);
                        let action = Action::NextCrate { category: category.clone() };
                        self.phase = Phase::Crates { category };
                        action
                    },
                    Err(error) => Action::Abort(error),
                }
            },
            _ => Action::Abort(Error::UnexpectedEvent),
        }
    }

    /// Whether every category has been walked and nothing failed.
    pub fn is_finished(&self) -> (finished: bool)
        ensures
            finished == (self@.phase is Finished),
    {
        match self.phase {
            Phase::Finished => true,
            _ => false,
        }
    }

    /// The manifest of a finished walk. A walk that failed, or that is still
    /// under way, gives nothing.
    pub fn into_manifest(self) -> (manifest: Option<AggregateManifest>)
        ensures
            match manifest {
                Some(complete) => self@.phase is Finished && complete@ == self@.manifest,
                None => !(self@.phase is Finished),
            },
    {
        match self.phase {
            Phase::Finished => Some(self.manifest),
            _ => None,
        }
    }
}

/// A crate under `fixed`, `test-pass` or `spurious-fixed` is recorded as a
/// success at once: the walk goes on to the next crate and asks for no
/// report.
pub proof fn lemma_success_is_recorded_unread(
    walk: WalkView,
    category: Seq<char>,
    krate: Seq<char>,
)
    requires
        walk.phase == (PhaseView::Crates { category }),
        category == "fixed"@ || category == "test-pass"@ || category == "spurious-fixed"@,
    ensures
        walk.step(EventView::Crate(EntryView::Name(krate))) == (
            walk.with_result(category, krate, BuildResultView::Success),
            ActionView::NextCrate { category },
        ),
{
    lemma_success_needs_no_report(category, krate, None);
}

/// Under every other category, recognized or not, the walk asks for the
/// crate's report and records nothing until it has it.
pub proof fn lemma_other_categories_await_report(
    walk: WalkView,
    category: Seq<char>,
    krate: Seq<char>,
)
    requires
        walk.phase == (PhaseView::Crates { category }),
        !(category == "fixed"@ || category == "test-pass"@ || category == "spurious-fixed"@),
    ensures
        walk.step(EventView::Crate(EntryView::Name(krate))) == (
            walk.at(PhaseView::Report { category, krate }),
            ActionView::ReadReport { category, krate },
        ),
{
    lemma_success_needs_no_report(category, krate, None);
}

/// A report that arrives for a crate under a recognized category is recorded
/// under the crate's name as that category's kind of result, with the
/// report's text unchanged, and the walk goes on to the next crate.
pub proof fn lemma_report_is_recorded(
    walk: WalkView,
    category: Seq<char>,
    krate: Seq<char>,
    output: Seq<char>,
)
    requires
        walk.phase == (PhaseView::Report { category, krate }),
        Category::named(category) is Some,
    ensures
        walk.step(EventView::Report(Some(output))) == (
            walk.with_result(
                category,
                krate,
                BuildResultView::of(Category::named(category)->0.spec_kind(), output),
            ),
            ActionView::NextCrate { category },
        ),
{
}

/// A report that arrives for a crate under an unrecognized category ends the
/// run with the error that names the category.
pub proof fn lemma_unrecognized_aborts(
    walk: WalkView,
    category: Seq<char>,
    krate: Seq<char>,
    output: Seq<char>,
)
    requires
        walk.phase == (PhaseView::Report { category, krate }),
        Category::named(category) is None,
    ensures
        walk.step(EventView::Report(Some(output))) == (
            walk.at(PhaseView::Failed),
            ActionView::Abort(ErrorView::InvalidCategory { category }),
        ),
{
    lemma_unrecognized_is_rejected(category, krate, output);
}

/// A crate directory without any entry, under a category that needs a
/// report, ends the run with the error that names the crate.
pub proof fn lemma_missing_version_aborts(walk: WalkView, category: Seq<char>, krate: Seq<char>)
    requires
        walk.phase == (PhaseView::Report { category, krate }),
        !(category == "fixed"@ || category == "test-pass"@ || category == "spurious-fixed"@),
    ensures
        walk.step(EventView::Report(None)) == (
            walk.at(PhaseView::Failed),
            ActionView::Abort(ErrorView::NoVersionFound { category, krate }),
        ),
{
    lemma_missing_version_is_rejected(category, krate);
}

/// A walk awaits a report only for a crate whose category needs one: from
/// its start on, it never stands waiting for the report of a crate under
/// `fixed`, `test-pass` or `spurious-fixed`.
pub proof fn lemma_report_awaited_only_when_needed(walk: WalkView, events: Seq<EventView>)
    requires
        walk.awaits_needed_report(),
    ensures
        walk.run(events).awaits_needed_report(),
    decreases events.len(),
{
    if events.len() > 0 {
        lemma_report_awaited_only_when_needed(walk, events.drop_last());
    }
}

/// The walk asks for the manifest to be written exactly when it becomes
/// finished, which is when the root listing ends; it gives the run up exactly
/// when it becomes failed.
pub proof fn lemma_emit_and_abort(walk: WalkView, event: EventView)
    ensures
        walk.step(event).1 is Emit <==> walk.step(event).0.phase is Finished,
        walk.step(event).1 is Emit <==> walk.phase is Categories && event == EventView::Category(
            EntryView::End,
        ),
        walk.step(event).1 is Abort <==> walk.step(event).0.phase is Failed,
{
}

/// A failed walk stays failed whatever it is told, and answers every event
/// by giving the run up: once a run has failed, no manifest is written.
pub proof fn lemma_failure_is_final(walk: WalkView, events: Seq<EventView>)
    requires
        walk.phase is Failed,
    ensures
        walk.run(events).phase is Failed,
        events.len() > 0 ==> walk.asks(events) is Abort,
    decreases events.len(),
{
    if events.len() > 0 {
        lemma_failure_is_final(walk, events.drop_last());
    }
}

/// A step changes the manifest by what it records, and by nothing else.
pub proof fn lemma_step_records(walk: WalkView, event: EventView)
    ensures
        walk.step(event).0.manifest == match walk.records(event) {
            Some(pair) => walk.manifest.insert(pair.0, pair.1),
            None => walk.manifest,
        },
{
}

/// The manifest of a walk that started empty is what its recorded results
/// amount to when written one over another in the order of the visit: for a
/// crate name met more than once, the result of the last visit stands.
pub proof fn lemma_manifest_is_history(walk: WalkView, events: Seq<EventView>)
    requires
        walk.manifest == Map::<Seq<char>, BuildResultView>::empty(),
    ensures
        walk.run(events).manifest == recorded(walk.history(events)),
    decreases events.len(),
{
    if events.len() > 0 {
        let earlier = walk.history(events.drop_last());
        lemma_manifest_is_history(walk, events.drop_last());
        lemma_step_records(walk.run(events.drop_last()), events.last());
        match walk.run(events.drop_last()).records(events.last()) {
            Some(pair) => {
                assert(earlier.push(pair).drop_last() =~= earlier);
            },
            None => {},
        }
    }
}

/// Taking in `first` and then `rest` is taking in the two in one go.
pub proof fn lemma_run_in_two(walk: WalkView, first: Seq<EventView>, rest: Seq<EventView>)
    ensures
        walk.run(first + rest) == walk.run(first).run(rest),
    decreases rest.len(),
{
    if rest.len() == 0 {
        assert(first + rest =~= first);
    } else {
        lemma_run_in_two(walk, first, rest.drop_last());
        assert((first + rest).drop_last() =~= first + rest.drop_last());
    }
}

/// Once the walk has given the run up, it never asks for the manifest to be
/// written: however the caller goes on, every later answer gives the run up
/// again.
pub proof fn lemma_no_emit_after_abort(walk: WalkView, events: Seq<EventView>, aborted: int)
    requires
        0 < aborted < events.len(),
        walk.asks(events.take(aborted)) is Abort,
    ensures
        walk.run(events).phase is Failed,
        walk.asks(events) is Abort,
{
    let first = events.take(aborted);
    let rest = events.skip(aborted);
    // The step that gave the run up left the walk failed.
    lemma_emit_and_abort(walk.run(first.drop_last()), first.last());
    // What follows is taken in by a failed walk.
    assert(events =~= first + rest);
    assert(events.drop_last() =~= first + rest.drop_last());
    lemma_run_in_two(walk, first, rest);
    lemma_run_in_two(walk, first, rest.drop_last());
    lemma_failure_is_final(walk.run(first), rest);
}

/// The manifest of a walk that started empty never holds more entries than
/// results were recorded, and holds as many exactly when no crate name was
/// met twice.
pub proof fn lemma_manifest_size(walk: WalkView, events: Seq<EventView>)
    requires
        walk.manifest == Map::<Seq<char>, BuildResultView>::empty(),
    ensures
        walk.run(events).manifest.dom().finite(),
        walk.run(events).manifest.dom().len() <= walk.history(events).len(),
        walk.run(events).manifest.dom().len() == walk.history(events).len() <==> names_distinct(
            walk.history(events),
        ),
{
    lemma_manifest_is_history(walk, events);
    lemma_recorded_size(walk.history(events));
}

/// No step removes a name, and each adds at most one: after any number of
/// events the manifest holds every name it held before, and at most one more
/// name for each event.
pub proof fn lemma_manifest_grows_slowly(walk: WalkView, events: Seq<EventView>)
    requires
        walk.manifest.dom().finite(),
    ensures
        walk.run(events).manifest.dom().finite(),
        walk.manifest.dom().subset_of(walk.run(events).manifest.dom()),
        walk.run(events).manifest.dom().len() <= walk.manifest.dom().len() + events.len(),
    decreases events.len(),
{
    if events.len() > 0 {
        lemma_manifest_grows_slowly(walk, events.drop_last());
        lemma_step_records(walk.run(events.drop_last()), events.last());
    }
}

} // verus!
