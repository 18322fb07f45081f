//! A run over several files, one after the other. The caller does the
//! reading and the writing; the run keeps the account: which file is next,
//! and how each one ended. Every file gets one outcome, whatever happens to
//! the files before it.

use crate::compress::CompressionStats;
use crate::error::{unsupported_format_reason, ErrorKind, ErrorView, PipelineError};
use crate::format::{sniffed_format, ImageFormat};
use crate::codec::decoded;
use crate::paths::{resolved_output, Operation};
use crate::pipeline::{
    combined, conclude, concluded, fail, item_outcome, planned_image, texts_of, ItemPlan,
    OutcomeView, Step, StepView, TransformOutcome,
};
use vstd::prelude::*;

verus! {

/// What the caller reports of the steps of one item: for each step the
/// length of the file as written, or what went wrong. The report of a step
/// that failed before anything was to be written, or that was not planned,
/// is not looked at.
#[derive(Debug)]
pub struct ItemReport {
    pub resize: Result<u64, PipelineError>,
    pub transform: Result<u64, PipelineError>,
}

/// A caller's report as plain values.
pub open spec fn report_view(written: Result<u64, PipelineError>) -> Result<u64, ErrorView> {
    match written {
        Ok(length) => Ok(length),
        Err(error) => Err(error@),
    }
}

/// A step that may be missing, as plain values.
pub open spec fn step_view(step: Option<Step>) -> Option<StepView> {
    match step {
        Some(s) => Some(s@),
        None => None,
    }
}

/// How a step ends: a failed step as the failure it is, whatever is
/// reported; a step that writes as the report says, with the size of the
/// source before where the step knows one.
pub open spec fn settled(input: Seq<char>, step: StepView, written: Result<u64, ErrorView>) -> OutcomeView {
    match step {
        StepView::Write { directory, output_path, bytes, stats } => concluded(
            input,
            output_path,
            match stats {
                Some(s) => Some(s.input_size),
                None => None,
            },
            written,
        ),
        StepView::Encode { directory, output_path, image, input_size } => concluded(
            input,
            output_path,
            Some(input_size),
            written,
        ),
        StepView::Fail(error) => OutcomeView::Failure { input_path: input, error },
    }
}

/// How an item ends, from its steps and the caller's reports of them.
pub open spec fn settled_item(
    input: Seq<char>,
    resize: Option<StepView>,
    transform: StepView,
    resize_written: Result<u64, ErrorView>,
    transform_written: Result<u64, ErrorView>,
) -> OutcomeView {
    combined(
        match resize {
            Some(step) => Some(settled(input, step, resize_written)),
            None => None,
        },
        settled(input, transform, transform_written),
    )
}

/// Whether an outcome is one of the file at `input`: a failure names that
/// file.
pub open spec fn belongs_to(outcome: OutcomeView, input: Seq<char>) -> bool {
    outcome matches OutcomeView::Failure { input_path, .. } ==> input_path == input
}

/// The outcome of an item belongs to the item, whatever its steps and
/// whatever is reported of them.
pub proof fn lemma_settled_item_belongs(
    input: Seq<char>,
    resize: Option<StepView>,
    transform: StepView,
    resize_written: Result<u64, ErrorView>,
    transform_written: Result<u64, ErrorView>,
)
    ensures
        belongs_to(settled_item(input, resize, transform, resize_written, transform_written), input),
{
}

/// A file that decodes and has an output path, and is neither JPEG nor PNG,
/// ends a compression as a failure that names it and is tagged as an
/// unsupported format, whatever is reported of it.
pub proof fn lemma_unsupported_item_fails(
    input: Seq<char>,
    data: Seq<u8>,
    output_dir: Option<Seq<char>>,
    batch_dir: Option<Seq<char>>,
    quality: u8,
    written: Result<u64, ErrorView>,
)
    requires
        decoded(data) is Ok,
        resolved_output(input, output_dir, batch_dir, Operation::Compress) is Ok,
        sniffed_format(data) != ImageFormat::Jpeg,
        sniffed_format(data) != ImageFormat::Png,
    ensures
        settled_item(
            input,
            None,
            planned_image(input, data, output_dir, batch_dir, false, quality),
            written,
            written,
        ) == (OutcomeView::Failure {
            input_path: input,
            error: ErrorView {
                kind: ErrorKind::UnsupportedFormat,
                reason: unsupported_format_reason(),
            },
        }),
{
}

/// A file whose step gives bytes to write, and whose write is reported to
/// have succeeded, ends as a success that names the output path of the step
/// and reports the length written.
pub proof fn lemma_written_item_succeeds(
    input: Seq<char>,
    directory: Seq<char>,
    output_path: Seq<char>,
    bytes: Seq<u8>,
    stats: CompressionStats,
    length: u64,
)
    ensures
        settled_item(
            input,
            None,
            StepView::Write { directory, output_path, bytes, stats: Some(stats) },
            Ok(length),
            Ok(length),
        ) == (OutcomeView::Success {
            output_path,
            stats: Some(CompressionStats { input_size: stats.input_size, output_size: length }),
        }),
{
}

/// The outcome of one step that the caller carried out, or did not have to.
pub fn settle(input: &str, step: Step, written: Result<u64, PipelineError>) -> (outcome:
    TransformOutcome)
    ensures
        outcome@ == settled(input@, step@, report_view(written)),
{
    match step {
        Step::Write { directory, output_path, bytes, stats } => {
            let input_size = match stats {
                Some(s) => Some(s.input_size),
                None => None,
            };
            conclude(input, output_path, input_size, written)
        },
        Step::Encode { directory, output_path, image, input_size } => conclude(
            input,
            output_path,
            Some(input_size),
            written,
        ),
        Step::Fail(error) => fail(input, error),
    }
}

/// The one outcome of an item, from its steps and the caller's report.
pub fn settle_item(input: &str, plan: ItemPlan, report: ItemReport) -> (outcome: TransformOutcome)
    ensures
        outcome@ == settled_item(
            input@,
            step_view(plan.resize),
            plan.transform@,
            report_view(report.resize),
            report_view(report.transform),
        ),
{
    let resized = match plan.resize {
        Some(step) => Some(settle(input, step, report.resize)),
        None => None,
    };
    item_outcome(resized, settle(input, plan.transform, report.transform))
}

/// The account of a run: the files to process, in order, and the outcomes
/// of those that are done.
#[derive(Debug)]
pub struct BatchRun {
    items: Vec<String>,
    outcomes: Vec<TransformOutcome>,
}

impl BatchRun {
    /// The paths of the files of the run, in order.
    pub closed spec fn items(&self) -> Seq<Seq<char>> {
        texts_of(self.items@)
    }

    /// The outcomes so far, in the order of the files.
    pub closed spec fn outcomes(&self) -> Seq<OutcomeView> {
        Seq::new(self.outcomes@.len(), |i: int| self.outcomes@[i]@)
    }

    /// What holds of every run: there is at most one outcome for each file,
    /// the outcomes stand in the order of the files, and each belongs to its
    /// file.
    pub open spec fn wf(&self) -> bool {
        &&& self.outcomes().len() <= self.items().len()
        &&& forall|i: int|
            0 <= i < self.outcomes().len() ==> belongs_to(
                #[trigger] self.outcomes()[i],
                self.items()[i],
            )
    }

    /// Whether every file has its outcome.
    pub open spec fn done(&self) -> bool {
        self.outcomes().len() == self.items().len()
    }

    /// A run over `items` with nothing done yet.
    pub fn new(items: Vec<String>) -> (run: BatchRun)
        ensures
            run.wf(),
            run.items() == texts_of(items@),
            run.outcomes() == Seq::<OutcomeView>::empty(),
    {
        let run = BatchRun { items, outcomes: Vec::new() };
        assert(run.outcomes() =~= Seq::<OutcomeView>::empty());
        run
    }

    /// The file that is next, or none once every file has its outcome.
    pub fn current(&self) -> (item: Option<&str>)
        requires
            self.wf(),
        ensures
            match item {
                Some(path) => !self.done() && path@ == self.items()[self.outcomes().len() as int],
                None => self.done(),
            },
    {
        let next = self.outcomes.len();
        if next < self.items.len() {
            Some(self.items[next].as_str())
        } else {
            None
        }
    }

    /// Closes the file that is next with the outcome of its steps, and goes
    /// on to the file after it. Tells whether there was a file to close;
    /// where there was none, nothing changes.
    pub fn record(&mut self, plan: ItemPlan, report: ItemReport) -> (recorded: bool)
        requires
            old(self).wf(),
        ensures
            final(self).wf(),
            final(self).items() == old(self).items(),
            recorded == !old(self).done(),
            recorded ==> final(self).outcomes() == old(self).outcomes().push(
                settled_item(
                    old(self).items()[old(self).outcomes().len() as int],
                    step_view(plan.resize),
                    plan.transform@,
                    report_view(report.resize),
                    report_view(report.transform),
                ),
            ),
            !recorded ==> final(self).outcomes() == old(self).outcomes(),
    {
        let next = self.outcomes.len();
        if next < self.items.len() {
            let outcome = settle_item(self.items[next].as_str(), plan, report);
            self.push_outcome(outcome);
            true
        } else {
            false
        }
    }

    /// Closes the file that is next as failed before any step: its source
    /// could not be read. Tells whether there was a file to close.
    pub fn record_failure(&mut self, error: PipelineError) -> (recorded: bool)
        requires
            old(self).wf(),
        ensures
            final(self).wf(),
            final(self).items() == old(self).items(),
            recorded == !old(self).done(),
            recorded ==> final(self).outcomes() == old(self).outcomes().push(
                OutcomeView::Failure {
                    input_path: old(self).items()[old(self).outcomes().len() as int],
                    error: error@,
                },
            ),
            !recorded ==> final(self).outcomes() == old(self).outcomes(),
    {
        let next = self.outcomes.len();
        if next < self.items.len() {
            let outcome = fail(self.items[next].as_str(), error);
            self.push_outcome(outcome);
            true
        } else {
            false
        }
    }

    fn push_outcome(&mut self, outcome: TransformOutcome)
        requires
            old(self).wf(),
            !old(self).done(),
            belongs_to(outcome@, old(self).items()[old(self).outcomes().len() as int]),
        ensures
            final(self).wf(),
            final(self).items() == old(self).items(),
            final(self).outcomes() == old(self).outcomes().push(outcome@),
    {
        self.outcomes.push(outcome);
        assert(self.outcomes() =~= old(self).outcomes().push(outcome@));
    }

    /// The outcome of the file closed last, if any file is closed.
    pub fn last_outcome(&self) -> (outcome: Option<&TransformOutcome>)
        ensures
            match outcome {
                Some(o) => self.outcomes().len() > 0 && o@ == self.outcomes().last(),
                None => self.outcomes().len() == 0,
            },
    {
        let n = self.outcomes.len();
        if n > 0 {
            Some(&self.outcomes[n - 1])
        } else {
            None
        }
    }

    /// Ends the run and hands out the outcomes, in the order of the files.
    /// A run in which every file was closed has as many outcomes as files.
    pub fn into_outcomes(self) -> (outcomes: Vec<TransformOutcome>)
        requires
            self.wf(),
        ensures
            outcomes@.len() == self.outcomes().len(),
            forall|i: int| 0 <= i < outcomes@.len() ==> outcomes@[i]@ == self.outcomes()[i],
            self.done() ==> outcomes@.len() == self.items().len(),
            forall|i: int|
                0 <= i < outcomes@.len() ==> belongs_to(#[trigger] outcomes@[i]@, self.items()[i]),
    {
        proof {
            assert forall|i: int| 0 <= i < self.outcomes@.len() implies belongs_to(
                #[trigger] self.outcomes@[i]@,
                self.items()[i],
            ) by {
                assert(self.outcomes()[i] == self.outcomes@[i]@);
            }
        }
        self.outcomes
    }
}

} // verus!
