//! Why a document could not be produced.

use vstd::prelude::*;

verus! {

/// A failure that the converter reported.
#[derive(Clone, Debug, PartialEq, Eq)]
pub enum ConverterError {
    /// The converter's output was not valid UTF-8; the number counts the
    /// bytes that were.
    BadEncoding(usize),
    /// Reading from or writing to the converter failed.
    Io(String),
    /// The converter ran and exited with a failure status, as it does when an
    /// input file is missing. Holds its diagnostic output.
    Rejected(String),
    /// The converter was not told where to write.
    NoOutputSpecified,
    /// The converter was given nothing to read.
    NoInputSpecified,
    /// The converter's executable was not found.
    NotFound,
}

/// The mathematical value of a [`ConverterError`].
pub ghost enum ConverterErrorView {
    BadEncoding(nat),
    Io(Seq<char>),
    Rejected(Seq<char>),
    NoOutputSpecified,
    NoInputSpecified,
    NotFound,
}

impl View for ConverterError {
    type V = ConverterErrorView;

    open spec fn view(&self) -> ConverterErrorView {
        match self {
            ConverterError::BadEncoding(n) => ConverterErrorView::BadEncoding(*n as nat),
            ConverterError::Io(s) => ConverterErrorView::Io(s@),
            ConverterError::Rejected(s) => ConverterErrorView::Rejected(s@),
            ConverterError::NoOutputSpecified => ConverterErrorView::NoOutputSpecified,
            ConverterError::NoInputSpecified => ConverterErrorView::NoInputSpecified,
            ConverterError::NotFound => ConverterErrorView::NotFound,
        }
    }
}

/// Why the pipeline stopped.
#[derive(Clone, Debug, PartialEq, Eq)]
pub enum DocumentError {
    /// An include pattern is not a valid glob. Holds the pattern.
    PatternCompile(String),
    /// No chapter of the book matches the include patterns.
    NoMatchingChapters,
    /// The selected chapters add up to no content at all.
    EmptyFilteredContent,
    /// The converter failed.
    ConverterExecution(ConverterError),
}

/// The mathematical value of a [`DocumentError`].
pub ghost enum DocumentErrorView {
    PatternCompile(Seq<char>),
    NoMatchingChapters,
    EmptyFilteredContent,
    ConverterExecution(ConverterErrorView),
}

impl View for DocumentError {
    type V = DocumentErrorView;

    open spec fn view(&self) -> DocumentErrorView {
        match self {
            DocumentError::PatternCompile(p) => DocumentErrorView::PatternCompile(p@),
            DocumentError::NoMatchingChapters => DocumentErrorView::NoMatchingChapters,
            DocumentError::EmptyFilteredContent => DocumentErrorView::EmptyFilteredContent,
            DocumentError::ConverterExecution(e) => DocumentErrorView::ConverterExecution(e@),
        }
    }
}

/// What the user is told of a converter's failure; the diagnostic that the
/// converter gave follows where there is one.
pub open spec fn converter_message(e: ConverterErrorView) -> Seq<char> {
    match e {
        ConverterErrorView::BadEncoding(_) => "the converter's output is not valid UTF-8"@,
        ConverterErrorView::Io(detail) => "could not talk to the converter: "@ + detail,
        ConverterErrorView::Rejected(diagnostic) => "the converter failed: "@ + diagnostic,
        ConverterErrorView::NoOutputSpecified => "no output file was specified"@,
        ConverterErrorView::NoInputSpecified => "no input files were specified"@,
        ConverterErrorView::NotFound => "pandoc was not found; is it installed?"@,
    }
}

/// What the user is told of a failure.
pub open spec fn document_message(e: DocumentErrorView) -> Seq<char> {
    match e {
        DocumentErrorView::PatternCompile(pattern) => "not a valid glob pattern: "@ + pattern,
        DocumentErrorView::NoMatchingChapters =>
            "no chapter matches the patterns of the document"@,
        DocumentErrorView::EmptyFilteredContent => "the selected chapters have no content"@,
        DocumentErrorView::ConverterExecution(e) => converter_message(e),
    }
}

impl ConverterError {
    /// What the user is told of this failure.
    pub fn message(&self) -> (text: String)
        ensures
            text@ == converter_message(self@),
    {
        match self {
            ConverterError::BadEncoding(_) => "the converter's output is not valid UTF-8".to_owned(),
            ConverterError::Io(detail) => "could not talk to the converter: ".to_owned().concat(
                detail.as_str(),
            ),
            ConverterError::Rejected(diagnostic) => "the converter failed: ".to_owned().concat(
                diagnostic.as_str(),
            ),
            ConverterError::NoOutputSpecified => "no output file was specified".to_owned(),
            ConverterError::NoInputSpecified => "no input files were specified".to_owned(),
            ConverterError::NotFound => "pandoc was not found; is it installed?".to_owned(),
        }
    }
}

impl DocumentError {
    /// What the user is told of this failure.
    pub fn message(&self) -> (text: String)
        ensures
            text@ == document_message(self@),
    {
        match self {
            DocumentError::PatternCompile(pattern) => "not a valid glob pattern: "
                .to_owned()
                .concat(pattern.as_str()),
            DocumentError::NoMatchingChapters => "no chapter matches the patterns of the document"
                .to_owned(),
            DocumentError::EmptyFilteredContent => "the selected chapters have no content"
                .to_owned(),
            DocumentError::ConverterExecution(e) => e.message(),
        }
    }
}

/// Whether two failures of the converter are of the same kind.
pub open spec fn same_cause(a: ConverterErrorView, b: ConverterErrorView) -> bool {
    match (a, b) {
        (ConverterErrorView::BadEncoding(_), ConverterErrorView::BadEncoding(_)) => true,
        (ConverterErrorView::Io(_), ConverterErrorView::Io(_)) => true,
        (ConverterErrorView::Rejected(_), ConverterErrorView::Rejected(_)) => true,
        (ConverterErrorView::NoOutputSpecified, ConverterErrorView::NoOutputSpecified) => true,
        (ConverterErrorView::NoInputSpecified, ConverterErrorView::NoInputSpecified) => true,
        (ConverterErrorView::NotFound, ConverterErrorView::NotFound) => true,
        _ => false,
    }
}

/// Law: failures of the converter that differ in kind are told apart by
/// their messages, whatever diagnostics they carry.
pub proof fn lemma_causes_have_distinct_messages(a: ConverterErrorView, b: ConverterErrorView)
    requires
        !same_cause(a, b),
    ensures
        converter_message(a) != converter_message(b),
{
    reveal_strlit("the converter's output is not valid UTF-8");
    reveal_strlit("could not talk to the converter: ");
    reveal_strlit("the converter failed: ");
    reveal_strlit("no output file was specified");
    reveal_strlit("no input files were specified");
    reveal_strlit("pandoc was not found; is it installed?");
    let x = converter_message(a);
    let y = converter_message(b);
    assert(x[0] != y[0] || x[3] != y[3] || x[13] != y[13]);
}

} // verus!
