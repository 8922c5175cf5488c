use mdbook_docx::book::{Book, Chapter, RenderContext};
use mdbook_docx::convert::ConversionJob;
use mdbook_docx::document::{Document, DocumentList};
use mdbook_docx::error::{ConverterError, DocumentError};
use mdbook_docx::run::{Pending, Stage, Step};

fn strings(items: &[&str]) -> Vec<String> {
    items.iter().map(|s| s.to_string()).collect()
}

fn context() -> RenderContext {
    RenderContext {
        root: "/book".to_string(),
        book: Book {
            chapters: vec![
                Chapter {
                    path: Some("ch1.md".to_string()),
                    content: "Hello".to_string(),
                    is_draft: false,
                },
                Chapter {
                    path: Some("ch2.md".to_string()),
                    content: "World".to_string(),
                    is_draft: false,
                },
            ],
        },
    }
}

fn document(filename: &str, includes: &[&str]) -> Document {
    Document {
        filename: filename.to_string(),
        template: None,
        includes: Some(strings(includes)),
        offset_headings_by: None,
        append: None,
        prepend: None,
    }
}

fn with_cover(filename: &str, includes: &[&str]) -> Document {
    Document { prepend: Some(strings(&["cover.docx"])), ..document(filename, includes) }
}

/// Runs the list against a converter that answers its jobs with `outcomes`,
/// in order, and succeeds once they are used up. Returns the jobs that the
/// converter was given and how the run ended.
fn drive(
    list: &DocumentList,
    context: &RenderContext,
    outcomes: Vec<Result<(), ConverterError>>,
) -> (Vec<(Pending, ConversionJob)>, Result<(), DocumentError>) {
    let mut outcomes = outcomes.into_iter();
    let mut jobs = Vec::new();
    let mut step = list.start(context);
    loop {
        match step {
            Step::Convert { job, pending } => {
                jobs.push((pending, job));
                step = list.process(context, pending, outcomes.next().unwrap_or(Ok(())));
            }
            Step::Finished => return (jobs, Ok(())),
            Step::Failed(e) => return (jobs, Err(e)),
        }
    }
}

fn output_of(job: &ConversionJob) -> &str {
    match job {
        ConversionJob::Convert { output, .. } => output,
        ConversionJob::Combine { output, .. } => output,
    }
}

#[test]
fn one_document_one_conversion() {
    let list = DocumentList { documents: vec![document("out.docx", &["ch1.md"])] };
    let (jobs, result) = drive(&list, &context(), vec![]);
    assert_eq!(result, Ok(()));
    assert_eq!(jobs.len(), 1);
    assert_eq!(jobs[0].0, Pending { document: 0, stage: Stage::Primary });
    match &jobs[0].1 {
        ConversionJob::Convert { content, output, .. } => {
            assert_eq!(content, "Hello\n\n");
            assert_eq!(output, "out.docx");
            assert!(!content.contains("World"));
        }
        other => panic!("not a conversion: {:?}", other),
    }
}

#[test]
fn empty_list_finishes_at_once() {
    let list = DocumentList::default();
    assert!(list.documents.is_empty());
    assert_eq!(list.start(&context()), Step::Finished);
    assert_eq!(drive(&list, &context(), vec![]), (vec![], Ok(())));
}

#[test]
fn second_of_three_failing_in_the_converter_stops_the_run() {
    let list = DocumentList {
        documents: vec![
            document("one.docx", &["ch1.md"]),
            document("two.docx", &["ch2.md"]),
            document("three.docx", &["*"]),
        ],
    };
    let failure = ConverterError::Rejected("pandoc: two.docx: permission denied".to_string());
    let (jobs, result) = drive(&list, &context(), vec![Ok(()), Err(failure.clone())]);
    assert_eq!(result, Err(DocumentError::ConverterExecution(failure)));
    assert_eq!(jobs.len(), 2);
    assert_eq!(output_of(&jobs[0].1), "one.docx");
    assert_eq!(output_of(&jobs[1].1), "two.docx");
    assert!(jobs.iter().all(|(pending, _)| pending.document < 2));
}

#[test]
fn second_of_three_failing_to_select_stops_the_run() {
    let list = DocumentList {
        documents: vec![
            document("one.docx", &["ch1.md"]),
            document("two.docx", &["missing.md"]),
            document("three.docx", &["*"]),
        ],
    };
    let (jobs, result) = drive(&list, &context(), vec![]);
    assert_eq!(result, Err(DocumentError::NoMatchingChapters));
    assert_eq!(jobs.len(), 1);
    assert_eq!(output_of(&jobs[0].1), "one.docx");
}

#[test]
fn failure_does_not_depend_on_the_documents_behind_it() {
    let failing = vec![document("one.docx", &["ch1.md"]), document("two.docx", &["[bad"])];
    let mut longer = failing.clone();
    longer.push(document("three.docx", &["*"]));
    longer.push(document("four.docx", &["also [bad"]));
    let short = drive(&DocumentList { documents: failing }, &context(), vec![]);
    let long = drive(&DocumentList { documents: longer }, &context(), vec![]);
    assert_eq!(short.1, Err(DocumentError::PatternCompile("[bad".to_string())));
    assert_eq!(short, long);
}

#[test]
fn first_failure_is_the_one_reported() {
    let list = DocumentList {
        documents: vec![document("one.docx", &["nothing"]), document("two.docx", &["[bad"])],
    };
    assert_eq!(list.start(&context()), Step::Failed(DocumentError::NoMatchingChapters));
}

#[test]
fn every_converter_failure_is_handed_on_unchanged() {
    let list = DocumentList { documents: vec![document("one.docx", &["*"])] };
    let failures = vec![
        ConverterError::BadEncoding(17),
        ConverterError::Io("broken pipe".to_string()),
        ConverterError::Rejected("exit 1".to_string()),
        ConverterError::NoOutputSpecified,
        ConverterError::NoInputSpecified,
        ConverterError::NotFound,
    ];
    for failure in failures {
        let (jobs, result) = drive(&list, &context(), vec![Err(failure.clone())]);
        assert_eq!(jobs.len(), 1);
        assert_eq!(result, Err(DocumentError::ConverterExecution(failure)));
    }
}

#[test]
fn merge_follows_the_conversion_of_the_same_document() {
    let list = DocumentList {
        documents: vec![with_cover("one.docx", &["ch1.md"]), document("two.docx", &["ch2.md"])],
    };
    let (jobs, result) = drive(&list, &context(), vec![]);
    assert_eq!(result, Ok(()));
    let order: Vec<Pending> = jobs.iter().map(|(pending, _)| *pending).collect();
    assert_eq!(
        order,
        vec![
            Pending { document: 0, stage: Stage::Primary },
            Pending { document: 0, stage: Stage::Combine },
            Pending { document: 1, stage: Stage::Primary },
        ]
    );
    assert!(matches!(jobs[0].1, ConversionJob::Convert { .. }));
    match &jobs[1].1 {
        ConversionJob::Combine { inputs, output, .. } => {
            assert_eq!(inputs, &strings(&["/book/cover.docx", "/book/book/docx/one.docx"]));
            assert_eq!(output, "one.docx");
        }
        other => panic!("not a merge: {:?}", other),
    }
    assert!(matches!(jobs[2].1, ConversionJob::Convert { .. }));
}

#[test]
fn failing_merge_stops_the_run() {
    let list = DocumentList {
        documents: vec![with_cover("one.docx", &["ch1.md"]), document("two.docx", &["ch2.md"])],
    };
    let (jobs, result) = drive(&list, &context(), vec![Ok(()), Err(ConverterError::NotFound)]);
    assert_eq!(result, Err(DocumentError::ConverterExecution(ConverterError::NotFound)));
    assert_eq!(jobs.len(), 2);
    assert_eq!(jobs[1].0, Pending { document: 0, stage: Stage::Combine });
}

#[test]
fn failing_conversion_skips_the_merge() {
    let list = DocumentList { documents: vec![with_cover("one.docx", &["ch1.md"])] };
    let (jobs, result) = drive(&list, &context(), vec![Err(ConverterError::NoInputSpecified)]);
    assert_eq!(
        result,
        Err(DocumentError::ConverterExecution(ConverterError::NoInputSpecified))
    );
    assert_eq!(jobs.len(), 1);
}

#[test]
fn process_goes_on_behind_the_pending_job() {
    let list = DocumentList {
        documents: vec![with_cover("one.docx", &["ch1.md"]), document("two.docx", &["ch2.md"])],
    };
    let context = context();
    let after_merge =
        list.process(&context, Pending { document: 0, stage: Stage::Combine }, Ok(()));
    match after_merge {
        Step::Convert { job, pending } => {
            assert_eq!(pending, Pending { document: 1, stage: Stage::Primary });
            assert_eq!(output_of(&job), "two.docx");
        }
        other => panic!("unexpected step: {:?}", other),
    }
    let after_last =
        list.process(&context, Pending { document: 1, stage: Stage::Primary }, Ok(()));
    assert_eq!(after_last, Step::Finished);
}

#[test]
fn pending_job_beyond_the_list_ends_the_run() {
    let list = DocumentList { documents: vec![document("one.docx", &["*"])] };
    let context = context();
    for stage in [Stage::Primary, Stage::Combine] {
        assert_eq!(list.process(&context, Pending { document: 1, stage }, Ok(())), Step::Finished);
        assert_eq!(
            list.process(&context, Pending { document: usize::MAX, stage }, Ok(())),
            Step::Finished
        );
        assert_eq!(
            list.process(&context, Pending { document: 5, stage }, Err(ConverterError::NotFound)),
            Step::Failed(DocumentError::ConverterExecution(ConverterError::NotFound))
        );
    }
}

#[test]
fn document_names_its_jobs_one_after_the_other() {
    let context = context();
    let plain = document("one.docx", &["ch1.md"]);
    assert!(matches!(
        plain.process(&context, None),
        Ok(Some((ConversionJob::Convert { .. }, Stage::Primary)))
    ));
    assert_eq!(plain.process(&context, Some(Stage::Primary)), Ok(None));
    assert_eq!(plain.process(&context, Some(Stage::Combine)), Ok(None));
    let covered = with_cover("one.docx", &["ch1.md"]);
    assert!(matches!(
        covered.process(&context, Some(Stage::Primary)),
        Ok(Some((ConversionJob::Combine { .. }, Stage::Combine)))
    ));
    assert_eq!(covered.process(&context, Some(Stage::Combine)), Ok(None));
    let unmatched = with_cover("one.docx", &["none"]);
    assert_eq!(unmatched.process(&context, None), Err(DocumentError::NoMatchingChapters));
}

#[test]
fn configured_document_is_converted_once() {
    let doc = Document::with_defaults(
        Some("out.docx".to_string()),
        None,
        Some(strings(&["ch1.md"])),
        None,
        None,
        None,
    );
    let list = DocumentList { documents: vec![doc] };
    let (jobs, result) = drive(&list, &context(), vec![]);
    assert_eq!(result, Ok(()));
    assert_eq!(jobs.len(), 1);
    match &jobs[0].1 {
        ConversionJob::Convert { content, output, .. } => {
            assert_eq!(content, "Hello\n\n");
            assert_eq!(output, "out.docx");
        }
        other => panic!("not a conversion: {:?}", other),
    }
}
