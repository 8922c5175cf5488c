//! The jobs that the converter is given for one document: the conversion of
//! its chapters, and the merge with the files around them.

use crate::book::{ChapterView, RenderContext};
use crate::document::{filtered_content, listed, Document, DocumentView};
use crate::error::{DocumentError, DocumentErrorView};
use crate::pandoc::{
    conversion_options, input_extensions, ConversionOption, ConversionOptionView,
    MarkdownExtension, PandocConfig,
};
use crate::path::{resolved_paths, ResolvedPaths, ResolvedPathsView};
use vstd::prelude::*;

verus! {

/// A format that the converter reads.
#[derive(Clone, Copy, PartialEq, Eq, Structural, Debug)]
pub enum InputFormat {
    /// Markdown as GitHub writes it.
    MarkdownGithub,
}

/// A format that the converter writes.
#[derive(Clone, Copy, PartialEq, Eq, Structural, Debug)]
pub enum OutputFormat {
    /// A Word document.
    Docx,
}

/// One run of the converter.
#[derive(Clone, Debug, PartialEq, Eq)]
pub enum ConversionJob {
    /// Convert text, handed over in memory, into a document.
    Convert {
        /// The text to convert.
        content: String,
        /// The format of the text.
        input_format: InputFormat,
        /// Extensions of the format that is read.
        input_extensions: Vec<MarkdownExtension>,
        /// The format of the document.
        output_format: OutputFormat,
        /// Extensions of the format that is written.
        output_extensions: Vec<MarkdownExtension>,
        /// File to write.
        output: String,
        /// The command-line options.
        options: Vec<ConversionOption>,
    },
    /// Merge files, in the order given.
    Combine {
        /// Files to read.
        inputs: Vec<String>,
        /// File to write.
        output: String,
        /// The command-line options.
        options: Vec<ConversionOption>,
    },
}

/// The mathematical value of a [`ConversionJob`].
pub ghost enum ConversionJobView {
    Convert {
        content: Seq<char>,
        input_format: InputFormat,
        input_extensions: Seq<MarkdownExtension>,
        output_format: OutputFormat,
        output_extensions: Seq<MarkdownExtension>,
        output: Seq<char>,
        options: Seq<ConversionOptionView>,
    },
    Combine { inputs: Seq<Seq<char>>, output: Seq<char>, options: Seq<ConversionOptionView> },
}

impl View for ConversionJob {
    type V = ConversionJobView;

    open spec fn view(&self) -> ConversionJobView {
        match self {
            ConversionJob::Convert {
                content,
                input_format,
                input_extensions,
                output_format,
                output_extensions,
                output,
                options,
            } => ConversionJobView::Convert {
                content: content@,
                input_format: *input_format,
                input_extensions: input_extensions@,
                output_format: *output_format,
                output_extensions: output_extensions@,
                output: output@,
                options: options.deep_view(),
            },
            ConversionJob::Combine { inputs, output, options } => ConversionJobView::Combine {
                inputs: inputs.deep_view(),
                output: output@,
                options: options.deep_view(),
            },
        }
    }
}

/// The first job of a document: its content, read as GitHub's markdown with
/// the standing extensions and written as a Word document to the document's
/// file. There is none where the document has no content.
pub open spec fn primary_job(
    root: Seq<char>,
    doc: DocumentView,
    chapters: Seq<ChapterView>,
) -> Result<ConversionJobView, DocumentErrorView> {
    match filtered_content(doc, chapters) {
        Ok(content) => Ok(
            ConversionJobView::Convert {
                content,
                input_format: InputFormat::MarkdownGithub,
                input_extensions: input_extensions(),
                output_format: OutputFormat::Docx,
                output_extensions: Seq::empty(),
                output: doc.filename,
                options: conversion_options(root, doc),
            },
        ),
        Err(e) => Err(e),
    }
}

/// Whether files are to be merged around the converted chapters.
pub open spec fn needs_combining(doc: DocumentView) -> bool {
    listed(doc.prepend).len() > 0 || listed(doc.append).len() > 0
}

/// The files that a merge reads: those to prepend, the converted chapters,
/// those to append.
pub open spec fn merge_inputs(paths: ResolvedPathsView) -> Seq<Seq<char>> {
    paths.prepend + seq![paths.primary_output] + paths.append
}

/// The files that the merge for a document reads.
pub open spec fn combine_inputs(root: Seq<char>, doc: DocumentView) -> Seq<Seq<char>> {
    merge_inputs(resolved_paths(root, doc))
}

/// The second job of a document, where it has one: the merge, written over
/// the first job's file name with the same options.
pub open spec fn combine_job(root: Seq<char>, doc: DocumentView) -> Option<ConversionJobView> {
    if needs_combining(doc) {
        Some(
            ConversionJobView::Combine {
                inputs: combine_inputs(root, doc),
                output: doc.filename,
                options: conversion_options(root, doc),
            },
        )
    } else {
        None
    }
}

/// Appends the files.
fn push_all(parts: &mut Vec<String>, files: Vec<String>)
    ensures
        final(parts).deep_view() == old(parts).deep_view() + files.deep_view(),
{
    let ghost before = parts.deep_view();
    let ghost texts = files.deep_view();
    let mut i: usize = 0;
    while i < files.len()
        invariant
            0 <= i <= files.len(),
            texts == files.deep_view(),
            parts.deep_view() == before + texts.take(i as int),
        decreases files.len() - i,
    {
        let ghost so_far = parts.deep_view();
        parts.push(files[i].clone());
        assert(parts.deep_view() =~= so_far.push(texts[i as int]));
        i = i + 1;
    }
}

/// Puts the files of a merge in order: the files to prepend as they are
/// listed, then the converted chapters, then the files to append as they
/// are listed.
pub fn merge_order(paths: ResolvedPaths) -> (inputs: Vec<String>)
    ensures
        inputs.deep_view() == merge_inputs(paths@),
{
    let mut inputs: Vec<String> = Vec::new();
    push_all(&mut inputs, paths.prepend);
    inputs.push(paths.primary_output);
    push_all(&mut inputs, paths.append);
    inputs
}

/// Whether the list is there and holds something.
fn is_listed(paths: &Option<Vec<String>>) -> (some: bool)
    ensures
        some == (listed(paths.deep_view()).len() > 0),
{
    match paths {
        Some(list) => list.len() > 0,
        None => false,
    }
}

impl Document {
    /// The job that converts the document's chapters.
    ///
    /// It reads the content that the document selects from the book as
    /// GitHub's markdown with the standing extensions, writes a Word
    /// document to the document's file name and carries the document's
    /// options. Where the content cannot be had, the reason is returned
    /// instead.
    pub fn conversion_job(&self, context: &RenderContext) -> (r: Result<
        ConversionJob,
        DocumentError,
    >)
        ensures
            match r {
                Ok(job) => primary_job(context.root@, self@, context.book@) == Ok::<
                    ConversionJobView,
                    DocumentErrorView,
                >(job@),
                Err(e) => primary_job(context.root@, self@, context.book@) == Err::<
                    ConversionJobView,
                    DocumentErrorView,
                >(e@),
            },
    {
        let mut config = PandocConfig::default();
        config.assign_options(context, self);
        match self.get_filtered_content(context) {
            Ok(content) => {
                config.content = content;
                Ok(
                    ConversionJob::Convert {
                        content: config.content.value,
                        input_format: InputFormat::MarkdownGithub,
                        input_extensions: config.input_extensions,
                        output_format: OutputFormat::Docx,
                        output_extensions: config.output_extensions,
                        output: self.filename.clone(),
                        options: config.options,
                    },
                )
            },
            Err(e) => Err(e),
        }
    }

    /// The job that merges the files to prepend and to append around the
    /// converted chapters, or none where the document names no such file.
    ///
    /// The merge reads the files to prepend in their order, then the output
    /// of the conversion, then the files to append in their order, and
    /// writes to the document's file name with the document's options.
    pub fn combine_sections(&self, context: &RenderContext) -> (r: Option<ConversionJob>)
        ensures
            r.is_some() == combine_job(context.root@, self@).is_some(),
            r matches Some(job) ==> combine_job(context.root@, self@) == Some(job@),
    {
        if !is_listed(&self.prepend) && !is_listed(&self.append) {
            return None;
        }
        let mut config = PandocConfig::default();
        config.assign_options(context, self);
        Some(
            ConversionJob::Combine {
                inputs: merge_order(self.resolve_paths(&context.root)),
                output: self.filename.clone(),
                options: config.options,
            },
        )
    }
}

} // verus!
