//! Producing a list of documents, one conversion at a time.
//!
//! The converter runs outside this library. A run is therefore a sequence of
//! steps: each step either names the next job for the converter, or ends the
//! run. The caller does the job and hands its outcome back to get the next
//! step.

use crate::book::{ChapterView, RenderContext};
use crate::convert::{combine_job, primary_job, ConversionJob, ConversionJobView};
use crate::document::{Document, DocumentList, DocumentView};
use crate::error::{ConverterError, ConverterErrorView, DocumentError, DocumentErrorView};
use vstd::prelude::*;

verus! {

/// The two jobs that a document can ask for.
#[derive(Clone, Copy, PartialEq, Eq, Structural, Debug)]
pub enum Stage {
    /// The conversion of the document's chapters.
    Primary,
    /// The merge with the files to prepend and to append.
    Combine,
}

/// The job that a run is waiting for.
#[derive(Clone, Copy, PartialEq, Eq, Structural, Debug)]
pub struct Pending {
    /// Position of the document in the list.
    pub document: usize,
    /// Which of the document's jobs it is.
    pub stage: Stage,
}

/// What a run does next.
#[derive(Clone, Debug, PartialEq, Eq)]
pub enum Step {
    /// The converter is to do this job. Its outcome, handed back together
    /// with `pending`, gives the step after.
    Convert { job: ConversionJob, pending: Pending },
    /// Every document has been produced.
    Finished,
    /// The run has stopped at the first failure.
    Failed(DocumentError),
}

/// The mathematical value of a [`Step`].
pub ghost enum StepView {
    Convert { job: ConversionJobView, pending: Pending },
    Finished,
    Failed(DocumentErrorView),
}

impl View for Step {
    type V = StepView;

    open spec fn view(&self) -> StepView {
        match self {
            Step::Convert { job, pending } => StepView::Convert { job: job@, pending: *pending },
            Step::Finished => StepView::Finished,
            Step::Failed(e) => StepView::Failed(e@),
        }
    }
}

/// The failure in a converter's outcome, if it is one.
pub open spec fn failure_of(outcome: Result<(), ConverterError>) -> Option<ConverterErrorView> {
    match outcome {
        Ok(_) => None,
        Err(e) => Some(e@),
    }
}

/// The job of a document that comes after `done`, with its stage: first the
/// conversion, then the merge where there is one, then nothing.
pub open spec fn next_job(
    root: Seq<char>,
    doc: DocumentView,
    chapters: Seq<ChapterView>,
    done: Option<Stage>,
) -> Result<Option<(ConversionJobView, Stage)>, DocumentErrorView> {
    match done {
        None => match primary_job(root, doc, chapters) {
            Ok(job) => Ok(Some((job, Stage::Primary))),
            Err(e) => Err(e),
        },
        Some(Stage::Primary) => match combine_job(root, doc) {
            Some(job) => Ok(Some((job, Stage::Combine))),
            None => Ok(None),
        },
        Some(Stage::Combine) => Ok(None),
    }
}

/// The step that follows when `done` of document `document` is done and
/// every document before it is complete: the document's next job; where it
/// has none, that of the documents after it; the end of the run where no
/// document is left. A document whose job cannot be had stops the run.
pub open spec fn step_after(
    list: Seq<DocumentView>,
    root: Seq<char>,
    chapters: Seq<ChapterView>,
    document: nat,
    done: Option<Stage>,
) -> StepView
    decreases list.len() - document,
{
    if document >= list.len() {
        StepView::Finished
    } else {
        match next_job(root, list[document as int], chapters, done) {
            Err(e) => StepView::Failed(e),
            Ok(Some((job, stage))) => StepView::Convert {
                job,
                pending: Pending { document: document as usize, stage },
            },
            Ok(None) => step_after(list, root, chapters, document + 1, None),
        }
    }
}

/// The first step of a run.
pub open spec fn first_step(
    list: Seq<DocumentView>,
    root: Seq<char>,
    chapters: Seq<ChapterView>,
) -> StepView {
    step_after(list, root, chapters, 0, None)
}

/// The step that follows the outcome of the pending job: a failure stops
/// the run with that failure; a success goes on behind the job.
pub open spec fn resumed_step(
    list: Seq<DocumentView>,
    root: Seq<char>,
    chapters: Seq<ChapterView>,
    pending: Pending,
    failure: Option<ConverterErrorView>,
) -> StepView {
    match failure {
        Some(e) => StepView::Failed(DocumentErrorView::ConverterExecution(e)),
        None => step_after(list, root, chapters, pending.document as nat, Some(pending.stage)),
    }
}

/// The step that a run stands at once the converter has answered with
/// `outcomes`, one per job and in order, starting from `step`. In an
/// outcome, `None` is a success and `Some` the converter's failure. A run
/// that has ended stays where it is.
pub open spec fn step_through(
    list: Seq<DocumentView>,
    root: Seq<char>,
    chapters: Seq<ChapterView>,
    step: StepView,
    outcomes: Seq<Option<ConverterErrorView>>,
) -> StepView
    decreases outcomes.len(),
{
    if outcomes.len() == 0 {
        step
    } else {
        match step {
            StepView::Convert { job, pending } => step_through(
                list,
                root,
                chapters,
                resumed_step(list, root, chapters, pending, outcomes.first()),
                outcomes.drop_first(),
            ),
            _ => step,
        }
    }
}

/// The step that a run over the list stands at once the converter has
/// answered with `outcomes`.
pub open spec fn run(
    list: Seq<DocumentView>,
    root: Seq<char>,
    chapters: Seq<ChapterView>,
    outcomes: Seq<Option<ConverterErrorView>>,
) -> StepView {
    step_through(list, root, chapters, first_step(list, root, chapters), outcomes)
}

impl Document {
    /// The job of this document that comes after `done`, with its stage.
    ///
    /// With nothing done it is the conversion of the chapters, or the reason
    /// why there is nothing to convert. After the conversion it is the
    /// merge, where the document names files to prepend or to append. After
    /// that there is none.
    pub fn process(&self, context: &RenderContext, done: Option<Stage>) -> (r: Result<
        Option<(ConversionJob, Stage)>,
        DocumentError,
    >)
        ensures
            match r {
                Ok(Some((job, stage))) => next_job(context.root@, self@, context.book@, done)
                    == Ok::<Option<(ConversionJobView, Stage)>, DocumentErrorView>(
                    Some((job@, stage)),
                ),
                Ok(None) => next_job(context.root@, self@, context.book@, done) == Ok::<
                    Option<(ConversionJobView, Stage)>,
                    DocumentErrorView,
                >(None),
                Err(e) => next_job(context.root@, self@, context.book@, done) == Err::<
                    Option<(ConversionJobView, Stage)>,
                    DocumentErrorView,
                >(e@),
            },
    {
        match done {
            None => match self.conversion_job(context) {
                Ok(job) => Ok(Some((job, Stage::Primary))),
                Err(e) => Err(e),
            },
            Some(Stage::Primary) => match self.combine_sections(context) {
                Some(job) => Ok(Some((job, Stage::Combine))),
                None => Ok(None),
            },
            Some(Stage::Combine) => Ok(None),
        }
    }
}

impl DocumentList {
    /// The step behind `done` of document `document`.
    fn step_from(&self, context: &RenderContext, document: usize, done: Option<Stage>) -> (step:
        Step)
        ensures
            step@ == step_after(self@, context.root@, context.book@, document as nat, done),
    {
        let ghost list = self@;
        let mut at: usize = document;
        let mut behind: Option<Stage> = done;
        while at < self.documents.len()
            invariant
                list == self@,
                step_after(list, context.root@, context.book@, at as nat, behind) == step_after(
                    list,
                    context.root@,
                    context.book@,
                    document as nat,
                    done,
                ),
            decreases self.documents.len() - at,
        {
            match self.documents[at].process(context, behind) {
                Err(e) => {
                    return Step::Failed(e);
                },
                Ok(Some((job, stage))) => {
                    return Step::Convert { job, pending: Pending { document: at, stage } };
                },
                Ok(None) => {
                    at = at + 1;
                    behind = None;
                },
            }
        }
        Step::Finished
    }

    /// Begins a run: the first step for this list of documents.
    ///
    /// It is the conversion of the first document's chapters; the failure
    /// for which the first document has nothing to convert; or the end of
    /// the run, where the list is empty.
    pub fn start(&self, context: &RenderContext) -> (step: Step)
        ensures
            step@ == first_step(self@, context.root@, context.book@),
    {
        self.step_from(context, 0, None)
    }

    /// Goes on with a run: the step that follows the outcome of the job
    /// that was pending.
    ///
    /// Where the converter failed, the run stops with that failure and no
    /// further document is looked at. Where it succeeded, the next step is
    /// the merge for the same document, if the pending job was its
    /// conversion and it has files to merge; else the conversion of the next
    /// document, or the failure for which that document has nothing to
    /// convert; else, with no document left, the end of the run.
    pub fn process(
        &self,
        context: &RenderContext,
        pending: Pending,
        outcome: Result<(), ConverterError>,
    ) -> (step: Step)
        ensures
            step@ == resumed_step(
                self@,
                context.root@,
                context.book@,
                pending,
                failure_of(outcome),
            ),
    {
        match outcome {
            Err(e) => Step::Failed(DocumentError::ConverterExecution(e)),
            Ok(_) => self.step_from(context, pending.document, Some(pending.stage)),
        }
    }
}

} // verus!
