//! The converter's configuration: the markdown extensions it reads with and
//! the options that a document's fields turn into.

use crate::book::RenderContext;
use crate::document::{Document, DocumentContent, DocumentView};
use crate::path::{resolved_paths, ResolvedPaths, ResolvedPathsView};
use vstd::prelude::*;

verus! {

/// A markdown extension that the converter can be asked to read with.
#[derive(Clone, Copy, PartialEq, Eq, Structural, Debug)]
pub enum MarkdownExtension {
    PipeTables,
    RawHtml,
    AutolinkBareUris,
    AutoIdentifiers,
    HardLineBreaks,
    BlankBeforeHeader,
    TableCaptions,
    PandocTitleBlock,
    YamlMetadataBlock,
    ImplicitHeaderReferences,
}

/// One option on the converter's command line.
#[derive(Clone, Debug, PartialEq, Eq)]
pub enum ConversionOption {
    /// The converter's data directory.
    DataDir(String),
    /// Directories in which the converter looks for images and other
    /// resources.
    ResourcePath(Vec<String>),
    /// Write headings in ATX style.
    AtxHeaders,
    /// Write links as references.
    ReferenceLinks,
    /// Shift every heading by this many levels.
    ShiftHeadingLevelBy(i32),
    /// Take the styles of this reference document.
    ReferenceDoc(String),
    /// Put this file's content in front of the body.
    IncludeBeforeBody(String),
    /// Put this file's content behind the body.
    IncludeAfterBody(String),
}

/// The mathematical value of a [`ConversionOption`].
pub ghost enum ConversionOptionView {
    DataDir(Seq<char>),
    ResourcePath(Seq<Seq<char>>),
    AtxHeaders,
    ReferenceLinks,
    ShiftHeadingLevelBy(i32),
    ReferenceDoc(Seq<char>),
    IncludeBeforeBody(Seq<char>),
    IncludeAfterBody(Seq<char>),
}

impl View for ConversionOption {
    type V = ConversionOptionView;

    open spec fn view(&self) -> ConversionOptionView {
        match self {
            ConversionOption::DataDir(dir) => ConversionOptionView::DataDir(dir@),
            ConversionOption::ResourcePath(dirs) => ConversionOptionView::ResourcePath(
                dirs.deep_view(),
            ),
            ConversionOption::AtxHeaders => ConversionOptionView::AtxHeaders,
            ConversionOption::ReferenceLinks => ConversionOptionView::ReferenceLinks,
            ConversionOption::ShiftHeadingLevelBy(n) => ConversionOptionView::ShiftHeadingLevelBy(
                *n,
            ),
            ConversionOption::ReferenceDoc(file) => ConversionOptionView::ReferenceDoc(file@),
            ConversionOption::IncludeBeforeBody(file) => ConversionOptionView::IncludeBeforeBody(
                file@,
            ),
            ConversionOption::IncludeAfterBody(file) => ConversionOptionView::IncludeAfterBody(
                file@,
            ),
        }
    }
}

impl DeepView for ConversionOption {
    type V = ConversionOptionView;

    open spec fn deep_view(&self) -> ConversionOptionView {
        self@
    }
}

/// How the converter is set up for one document.
#[derive(Clone, Debug, PartialEq, Eq)]
pub struct PandocConfig {
    /// Extensions of the markdown that the converter reads.
    pub input_extensions: Vec<MarkdownExtension>,
    /// Extensions of the format that the converter writes.
    pub output_extensions: Vec<MarkdownExtension>,
    /// The command-line options.
    pub options: Vec<ConversionOption>,
    /// The content to convert.
    pub content: DocumentContent,
}

/// The mathematical value of a [`PandocConfig`].
pub ghost struct PandocConfigView {
    pub input_extensions: Seq<MarkdownExtension>,
    pub output_extensions: Seq<MarkdownExtension>,
    pub options: Seq<ConversionOptionView>,
    pub content: Seq<char>,
}

impl View for PandocConfig {
    type V = PandocConfigView;

    open spec fn view(&self) -> PandocConfigView {
        PandocConfigView {
            input_extensions: self.input_extensions@,
            output_extensions: self.output_extensions@,
            options: self.options.deep_view(),
            content: self.content@,
        }
    }
}

/// The extensions with which chapters are read, in the order in which the
/// converter is given them.
pub open spec fn input_extensions() -> Seq<MarkdownExtension> {
    seq![
        MarkdownExtension::PipeTables,
        MarkdownExtension::RawHtml,
        MarkdownExtension::AutolinkBareUris,
        MarkdownExtension::AutoIdentifiers,
        MarkdownExtension::HardLineBreaks,
        MarkdownExtension::BlankBeforeHeader,
        MarkdownExtension::TableCaptions,
        MarkdownExtension::PandocTitleBlock,
        MarkdownExtension::YamlMetadataBlock,
        MarkdownExtension::ImplicitHeaderReferences,
    ]
}

/// The configuration before a document's options are assigned.
pub open spec fn default_config() -> PandocConfigView {
    PandocConfigView {
        input_extensions: input_extensions(),
        output_extensions: Seq::empty(),
        options: Seq::empty(),
        content: Seq::empty(),
    }
}

impl Default for PandocConfig {
    fn default() -> (config: PandocConfig)
        ensures
            config@ == default_config(),
    {
        let mut extensions: Vec<MarkdownExtension> = Vec::new();
        extensions.push(MarkdownExtension::PipeTables);
        extensions.push(MarkdownExtension::RawHtml);
        extensions.push(MarkdownExtension::AutolinkBareUris);
        extensions.push(MarkdownExtension::AutoIdentifiers);
        extensions.push(MarkdownExtension::HardLineBreaks);
        extensions.push(MarkdownExtension::BlankBeforeHeader);
        extensions.push(MarkdownExtension::TableCaptions);
        extensions.push(MarkdownExtension::PandocTitleBlock);
        extensions.push(MarkdownExtension::YamlMetadataBlock);
        extensions.push(MarkdownExtension::ImplicitHeaderReferences);
        let config = PandocConfig {
            input_extensions: extensions,
            output_extensions: Vec::new(),
            options: Vec::new(),
            content: DocumentContent::default(),
        };
        assert(config@.input_extensions =~= input_extensions());
        assert(config@.options =~= Seq::<ConversionOptionView>::empty());
        config
    }
}

/// The options that every document gets: the root as data directory, the
/// sources as resource path, ATX headings and reference links.
pub open spec fn standing_options(root: Seq<char>, sources: Seq<char>) -> Seq<
    ConversionOptionView,
> {
    seq![
        ConversionOptionView::DataDir(root),
        ConversionOptionView::ResourcePath(seq![sources]),
        ConversionOptionView::AtxHeaders,
        ConversionOptionView::ReferenceLinks,
    ]
}

/// The heading shift, where one is asked for. The number is handed on as it
/// is.
pub open spec fn heading_shift(shift: Option<i32>) -> Seq<ConversionOptionView> {
    match shift {
        Some(n) => seq![ConversionOptionView::ShiftHeadingLevelBy(n)],
        None => Seq::empty(),
    }
}

/// The reference document, where there is a template.
pub open spec fn reference_template(template: Option<Seq<char>>) -> Seq<ConversionOptionView> {
    match template {
        Some(file) => seq![ConversionOptionView::ReferenceDoc(file)],
        None => Seq::empty(),
    }
}

/// One option per file, in the files' order: before the body, or after it.
pub open spec fn body_includes(files: Seq<Seq<char>>, after: bool) -> Seq<ConversionOptionView> {
    files.map_values(
        |file: Seq<char>|
            if after {
                ConversionOptionView::IncludeAfterBody(file)
            } else {
                ConversionOptionView::IncludeBeforeBody(file)
            },
    )
}

/// The options for a root, a heading shift and resolved paths: the standing
/// options, the shift, the template, the files before the body, the files
/// after it.
pub open spec fn options_from(
    root: Seq<char>,
    shift: Option<i32>,
    paths: ResolvedPathsView,
) -> Seq<ConversionOptionView> {
    standing_options(root, paths.sources) + heading_shift(shift) + reference_template(
        paths.template,
    ) + body_includes(paths.prepend, false) + body_includes(paths.append, true)
}

/// The options with which a document is converted.
pub open spec fn conversion_options(root: Seq<char>, doc: DocumentView) -> Seq<
    ConversionOptionView,
> {
    options_from(root, doc.offset_headings_by, resolved_paths(root, doc))
}

/// The configuration after the options of a document have been assigned:
/// the options are the document's, the rest is as it was.
pub open spec fn assigned(
    config: PandocConfigView,
    root: Seq<char>,
    doc: DocumentView,
) -> PandocConfigView {
    PandocConfigView { options: conversion_options(root, doc), ..config }
}

/// Appends one body include per file, in the files' order.
fn push_body_includes(options: &mut Vec<ConversionOption>, files: &Vec<String>, after: bool)
    ensures
        final(options).deep_view() == old(options).deep_view() + body_includes(
            files.deep_view(),
            after,
        ),
{
    let ghost before = options.deep_view();
    let ghost texts = files.deep_view();
    let mut i: usize = 0;
    while i < files.len()
        invariant
            0 <= i <= files.len(),
            texts == files.deep_view(),
            options.deep_view() == before + body_includes(texts.take(i as int), after),
        decreases files.len() - i,
    {
        let ghost so_far = options.deep_view();
        if after {
            options.push(ConversionOption::IncludeAfterBody(files[i].clone()));
        } else {
            options.push(ConversionOption::IncludeBeforeBody(files[i].clone()));
        }
        assert(options.deep_view() =~= so_far.push(options@[options@.len() - 1]@));
        i = i + 1;
    }
}

/// Builds the converter's options from a root, a heading shift and resolved
/// paths.
///
/// First come the root as data directory, the sources as the one resource
/// path, ATX headings and reference links. Then, where they are there: the
/// heading shift, unchanged; the template as reference document; one
/// include before the body per file to prepend; one include after the body
/// per file to append.
pub fn build_options(root: &String, shift: Option<i32>, paths: &ResolvedPaths) -> (options: Vec<
    ConversionOption,
>)
    ensures
        options.deep_view() == options_from(root@, shift, paths@),
{
    let mut options: Vec<ConversionOption> = Vec::new();
    let mut resources: Vec<String> = Vec::new();
    resources.push(paths.sources.clone());
    assert(resources.deep_view() =~= seq![paths@.sources]);
    options.push(ConversionOption::DataDir(root.clone()));
    options.push(ConversionOption::ResourcePath(resources));
    options.push(ConversionOption::AtxHeaders);
    options.push(ConversionOption::ReferenceLinks);
    if let Some(n) = shift {
        options.push(ConversionOption::ShiftHeadingLevelBy(n));
    }
    if let Some(file) = &paths.template {
        options.push(ConversionOption::ReferenceDoc(file.clone()));
    }
    push_body_includes(&mut options, &paths.prepend, false);
    push_body_includes(&mut options, &paths.append, true);
    options
}

impl PandocConfig {
    /// Replaces the options by those of the document.
    ///
    /// The options depend on the book's root and the document alone: the
    /// document's paths are resolved against the root, and the options are
    /// built from the root, the document's heading shift and those paths.
    /// Extensions and content stay as they are.
    pub fn assign_options(&mut self, context: &RenderContext, doc: &Document) -> (config: &Self)
        ensures
            final(self)@ == assigned(old(self)@, context.root@, doc@),
            config@ == final(self)@,
    {
        let paths = doc.resolve_paths(&context.root);
        self.options = build_options(&context.root, doc.offset_headings_by, &paths);
        self
    }
}

} // verus!
