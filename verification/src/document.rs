//! Documents: what each one asks for, which chapters it selects and what
//! content they add up to.

use crate::book::{Book, ChapterView, RenderContext};
use crate::error::{DocumentError, DocumentErrorView};
use crate::pattern::{
    compile_patterns, compiled_patterns, pattern_matches, pattern_texts, wildcard, IncludePattern,
};
use vstd::prelude::*;

verus! {

/// One document to produce.
#[derive(Clone, Debug, PartialEq, Eq)]
pub struct Document {
    /// Name of the file to write.
    pub filename: String,
    /// Reference document whose styles the converter takes over.
    pub template: Option<String>,
    /// Glob patterns that select chapters by path. Absent or empty, every
    /// chapter is selected.
    pub includes: Option<Vec<String>>,
    /// By how many levels the converter shifts each heading.
    pub offset_headings_by: Option<i32>,
    /// Files merged behind the converted chapters, in this order.
    pub append: Option<Vec<String>>,
    /// Files merged in front of the converted chapters, in this order.
    pub prepend: Option<Vec<String>>,
}

/// The mathematical value of a [`Document`].
pub ghost struct DocumentView {
    pub filename: Seq<char>,
    pub template: Option<Seq<char>>,
    pub includes: Option<Seq<Seq<char>>>,
    pub offset_headings_by: Option<i32>,
    pub append: Option<Seq<Seq<char>>>,
    pub prepend: Option<Seq<Seq<char>>>,
}

impl View for Document {
    type V = DocumentView;

    open spec fn view(&self) -> DocumentView {
        DocumentView {
            filename: self.filename@,
            template: self.template.deep_view(),
            includes: self.includes.deep_view(),
            offset_headings_by: self.offset_headings_by,
            append: self.append.deep_view(),
            prepend: self.prepend.deep_view(),
        }
    }
}

impl DeepView for Document {
    type V = DocumentView;

    open spec fn deep_view(&self) -> DocumentView {
        self@
    }
}

/// The documents to produce, in the order in which they are produced.
#[derive(Clone, Debug, PartialEq, Eq)]
pub struct DocumentList {
    pub documents: Vec<Document>,
}

impl View for DocumentList {
    type V = Seq<DocumentView>;

    open spec fn view(&self) -> Seq<DocumentView> {
        self.documents.deep_view()
    }
}

/// Whether no two documents of the list write to the same file.
pub open spec fn filenames_are_distinct(list: Seq<DocumentView>) -> bool {
    forall|i: int, j: int|
        0 <= i < j < list.len() ==> (#[trigger] list[i]).filename != (#[trigger] list[j]).filename
}

impl DocumentList {
    /// Whether no two documents of the list write to the same file. Where
    /// two do, the later one overwrites what the earlier one has produced.
    pub fn has_distinct_filenames(&self) -> (distinct: bool)
        ensures
            distinct == filenames_are_distinct(self@),
    {
        let ghost list = self@;
        let mut j: usize = 0;
        while j < self.documents.len()
            invariant
                0 <= j <= self.documents.len(),
                list == self@,
                forall|a: int, b: int|
                    0 <= a < b < j ==> (#[trigger] list[a]).filename != (
                    #[trigger] list[b]).filename,
            decreases self.documents.len() - j,
        {
            let mut i: usize = 0;
            while i < j
                invariant
                    0 <= i <= j < self.documents.len(),
                    list == self@,
                    forall|a: int|
                        0 <= a < i ==> (#[trigger] list[a]).filename != list[j as int].filename,
                decreases j - i,
            {
                assert(self.documents[i as int]@ == list[i as int]);
                if self.documents[i].filename == self.documents[j].filename {
                    return false;
                }
                i = i + 1;
            }
            j = j + 1;
        }
        true
    }
}

impl Default for DocumentList {
    fn default() -> (list: DocumentList)
        ensures
            list@ == Seq::<DocumentView>::empty(),
    {
        let list = DocumentList { documents: Vec::new() };
        list
    }
}

/// The list that an optional list of texts stands for: absent means empty.
pub open spec fn listed(texts: Option<Seq<Seq<char>>>) -> Seq<Seq<char>> {
    match texts {
        Some(list) => list,
        None => Seq::empty(),
    }
}

/// The document that is produced when nothing is configured.
pub open spec fn default_document() -> DocumentView {
    DocumentView {
        filename: "output.docx"@,
        template: Some("reference.docx"@),
        includes: Some(seq![wildcard()]),
        offset_headings_by: None,
        append: None,
        prepend: None,
    }
}

/// The document that a configuration stands for: what it leaves out of file
/// name, template and include list is taken from the default document, the
/// rest is as configured.
pub open spec fn configured_document(
    filename: Option<Seq<char>>,
    template: Option<Seq<char>>,
    includes: Option<Seq<Seq<char>>>,
    offset_headings_by: Option<i32>,
    append: Option<Seq<Seq<char>>>,
    prepend: Option<Seq<Seq<char>>>,
) -> DocumentView {
    DocumentView {
        filename: match filename {
            Some(name) => name,
            None => default_document().filename,
        },
        template: match template {
            Some(file) => Some(file),
            None => default_document().template,
        },
        includes: match includes {
            Some(list) => Some(list),
            None => default_document().includes,
        },
        offset_headings_by,
        append,
        prepend,
    }
}

impl Document {
    /// Makes a document of what a configuration gives, with the defaults
    /// for what it leaves out: `output.docx` as file name, `reference.docx`
    /// as template, and the wildcard as the only include pattern.
    pub fn with_defaults(
        filename: Option<String>,
        template: Option<String>,
        includes: Option<Vec<String>>,
        offset_headings_by: Option<i32>,
        append: Option<Vec<String>>,
        prepend: Option<Vec<String>>,
    ) -> (doc: Document)
        ensures
            doc@ == configured_document(
                filename.deep_view(),
                template.deep_view(),
                includes.deep_view(),
                offset_headings_by,
                append.deep_view(),
                prepend.deep_view(),
            ),
    {
        let fallback = Document::default();
        Document {
            filename: match filename {
                Some(name) => name,
                None => fallback.filename,
            },
            template: match template {
                Some(file) => Some(file),
                None => fallback.template,
            },
            includes: match includes {
                Some(list) => Some(list),
                None => fallback.includes,
            },
            offset_headings_by,
            append,
            prepend,
        }
    }
}

impl Default for Document {
    fn default() -> (doc: Document)
        ensures
            doc@ == default_document(),
    {
        let mut includes: Vec<String> = Vec::new();
        includes.push("*".to_owned());
        let doc = Document {
            filename: "output.docx".to_owned(),
            template: Some("reference.docx".to_owned()),
            includes: Some(includes),
            offset_headings_by: None,
            append: None,
            prepend: None,
        };
        proof {
            reveal_strlit("*");
            assert("*"@ =~= wildcard());
            assert(doc@.includes.unwrap() =~= seq![wildcard()]);
        }
        doc
    }
}

/// Whether a chapter can be selected at all: it has a path and is no draft.
pub open spec fn is_selectable(chapter: ChapterView) -> bool {
    chapter.path is Some && !chapter.is_draft
}

/// Whether at least one of the patterns matches the path.
pub open spec fn matches_any(patterns: Seq<Seq<char>>, path: Seq<char>) -> bool {
    exists|k: int| 0 <= k < patterns.len() && pattern_matches(#[trigger] patterns[k], path)
}

/// For each chapter of the book, whether it has a path that at least one of
/// the patterns matches.
pub open spec fn matched_chapters(patterns: Seq<Seq<char>>, chapters: Seq<ChapterView>) -> Seq<
    bool,
> {
    chapters.map_values(|c: ChapterView| c.path is Some && matches_any(patterns, c.path.unwrap()))
}

/// The path under which the chapter at `i` is picked, if it is: it must be
/// selectable and flagged as matched. A chapter without a flag counts as
/// not matched.
pub open spec fn picked_path(chapters: Seq<ChapterView>, matched: Seq<bool>, i: int) -> Option<
    Seq<char>,
> {
    if is_selectable(chapters[i]) && i < matched.len() && matched[i] {
        chapters[i].path
    } else {
        None
    }
}

/// The paths of the chapters that are picked, in the book's order.
pub open spec fn picked_paths(chapters: Seq<ChapterView>, matched: Seq<bool>) -> Seq<Seq<char>> {
    Seq::new(chapters.len(), |i: int| picked_path(chapters, matched, i)).filter_map(
        |p: Option<Seq<char>>| p,
    )
}

/// What picking gives: the picked paths, or a failure where there are none.
pub open spec fn picked(chapters: Seq<ChapterView>, matched: Seq<bool>) -> Result<
    Seq<Seq<char>>,
    DocumentErrorView,
> {
    let paths = picked_paths(chapters, matched);
    if paths.len() == 0 {
        Err(DocumentErrorView::NoMatchingChapters)
    } else {
        Ok(paths)
    }
}

/// The paths of the chapters that the patterns select, in the book's order.
pub open spec fn selected_paths(patterns: Seq<Seq<char>>, chapters: Seq<ChapterView>) -> Seq<
    Seq<char>,
> {
    picked_paths(chapters, matched_chapters(patterns, chapters))
}

/// What selecting gives: the selected paths, or a failure where there are
/// none.
pub open spec fn selection(patterns: Seq<Seq<char>>, chapters: Seq<ChapterView>) -> Result<
    Seq<Seq<char>>,
    DocumentErrorView,
> {
    picked(chapters, matched_chapters(patterns, chapters))
}

/// What a document selects from a book: its include list is compiled, then
/// matched against the chapters.
pub open spec fn document_selection(doc: DocumentView, chapters: Seq<ChapterView>) -> Result<
    Seq<Seq<char>>,
    DocumentErrorView,
> {
    match compiled_patterns(listed(doc.includes)) {
        Ok(patterns) => selection(patterns, chapters),
        Err(e) => Err(e),
    }
}

/// Whether at least one of the compiled patterns matches the path.
pub fn matches_any_pattern(patterns: &Vec<IncludePattern>, path: &str) -> (m: bool)
    ensures
        m == matches_any(pattern_texts(patterns@), path@),
{
    let ghost texts = pattern_texts(patterns@);
    let mut k: usize = 0;
    while k < patterns.len()
        invariant
            0 <= k <= patterns.len(),
            texts == pattern_texts(patterns@),
            forall|j: int| 0 <= j < k ==> !pattern_matches(#[trigger] texts[j], path@),
        decreases patterns.len() - k,
    {
        if patterns[k].matches(path) {
            assert(pattern_matches(texts[k as int], path@));
            return true;
        }
        k = k + 1;
    }
    false
}

/// Matches every chapter of the book against the patterns: one flag per
/// chapter, set where the chapter has a path that at least one pattern
/// matches.
pub fn match_chapters(patterns: &Vec<IncludePattern>, book: &Book) -> (matched: Vec<bool>)
    ensures
        matched@ == matched_chapters(pattern_texts(patterns@), book@),
{
    let ghost texts = pattern_texts(patterns@);
    let mut matched: Vec<bool> = Vec::new();
    let mut i: usize = 0;
    while i < book.chapters.len()
        invariant
            0 <= i <= book.chapters.len(),
            texts == pattern_texts(patterns@),
            matched@ == matched_chapters(texts, book@.take(i as int)),
        decreases book.chapters.len() - i,
    {
        let flag = match &book.chapters[i].path {
            Some(path) => matches_any_pattern(patterns, path.as_str()),
            None => false,
        };
        matched.push(flag);
        i = i + 1;
    }
    matched
}

/// Picks the chapters of the book that are flagged as matched.
///
/// `matched` holds one flag per chapter, in the book's order; a chapter
/// beyond its end counts as not matched. A flagged chapter is picked if it
/// has a path and is no draft. The paths of the picked chapters come out in
/// the book's order. Picking nothing is a failure.
pub fn select_matched(book: &Book, matched: &Vec<bool>) -> (r: Result<Vec<String>, DocumentError>)
    ensures
        match r {
            Ok(paths) => picked(book@, matched@) == Ok::<Seq<Seq<char>>, DocumentErrorView>(
                paths.deep_view(),
            ),
            Err(e) => picked(book@, matched@) == Err::<Seq<Seq<char>>, DocumentErrorView>(e@),
        },
{
    let ghost chapters = book@;
    let ghost picks = Seq::new(chapters.len(), |i: int| picked_path(chapters, matched@, i));
    let ghost itself = |p: Option<Seq<char>>| p;
    let mut paths: Vec<String> = Vec::new();
    let mut i: usize = 0;
    while i < book.chapters.len()
        invariant
            0 <= i <= book.chapters.len(),
            chapters == book@,
            picks == Seq::new(chapters.len(), |i: int| picked_path(chapters, matched@, i)),
            itself == |p: Option<Seq<char>>| p,
            paths.deep_view() == picks.take(i as int).filter_map(itself),
        decreases book.chapters.len() - i,
    {
        let chapter = &book.chapters[i];
        proof {
            picks.lemma_filter_map_take_succ(itself, i as int);
        }
        if !chapter.is_draft && i < matched.len() && matched[i] {
            match &chapter.path {
                Some(path) => {
                    paths.push(path.clone());
                },
                None => {},
            }
        }
        i = i + 1;
    }
    assert(picks.take(picks.len() as int) =~= picks);
    if paths.len() == 0 {
        Err(DocumentError::NoMatchingChapters)
    } else {
        Ok(paths)
    }
}

/// Selects the chapters of the book whose path at least one pattern matches.
///
/// Chapters without a path and drafts are passed over. The paths come out in
/// the book's order. A selection of nothing is a failure.
pub fn select_chapters(patterns: &Vec<IncludePattern>, book: &Book) -> (r: Result<
    Vec<String>,
    DocumentError,
>)
    ensures
        match r {
            Ok(paths) => selection(pattern_texts(patterns@), book@) == Ok::<
                Seq<Seq<char>>,
                DocumentErrorView,
            >(paths.deep_view()),
            Err(e) => selection(pattern_texts(patterns@), book@) == Err::<
                Seq<Seq<char>>,
                DocumentErrorView,
            >(e@),
        },
{
    let matched = match_chapters(patterns, book);
    select_matched(book, &matched)
}

impl Document {
    /// Compiles the document's include patterns. Without any, the wildcard
    /// stands in.
    pub fn get_patterns(&self) -> (r: Result<Vec<IncludePattern>, DocumentError>)
        ensures
            match r {
                Ok(patterns) => compiled_patterns(listed(self@.includes)) == Ok::<
                    Seq<Seq<char>>,
                    DocumentErrorView,
                >(pattern_texts(patterns@)),
                Err(e) => compiled_patterns(listed(self@.includes)) == Err::<
                    Seq<Seq<char>>,
                    DocumentErrorView,
                >(e@),
            },
    {
        match &self.includes {
            Some(list) => compile_patterns(list),
            None => {
                let none: Vec<String> = Vec::new();
                compile_patterns(&none)
            },
        }
    }

    /// The paths of the chapters that the document selects from the book, in
    /// the book's order.
    pub fn get_chapters(&self, context: &RenderContext) -> (r: Result<Vec<String>, DocumentError>)
        ensures
            match r {
                Ok(paths) => document_selection(self@, context.book@) == Ok::<
                    Seq<Seq<char>>,
                    DocumentErrorView,
                >(paths.deep_view()),
                Err(e) => document_selection(self@, context.book@) == Err::<
                    Seq<Seq<char>>,
                    DocumentErrorView,
                >(e@),
            },
    {
        match self.get_patterns() {
            Ok(patterns) => select_chapters(&patterns, &context.book),
            Err(e) => Err(e),
        }
    }
}

/// The content of one document: the text of its chapters, joined.
#[derive(Clone, Debug, PartialEq, Eq)]
pub struct DocumentContent {
    pub value: String,
}

impl View for DocumentContent {
    type V = Seq<char>;

    open spec fn view(&self) -> Seq<char> {
        self.value@
    }
}

impl Default for DocumentContent {
    fn default() -> (content: DocumentContent)
        ensures
            content@ == Seq::<char>::empty(),
    {
        DocumentContent { value: String::new() }
    }
}

/// What follows each chapter in the assembled content: two newlines, so that
/// a heading that opens the next chapter has a blank line before it.
pub open spec fn chapter_padding() -> Seq<char> {
    seq!['\n', '\n']
}

/// Whether a chapter belongs to the selected paths.
pub open spec fn is_included(selected: Seq<Seq<char>>, chapter: ChapterView) -> bool {
    chapter.path is Some && selected.contains(chapter.path.unwrap())
}

/// What a chapter adds to the assembled content: its text and the padding
/// if it is included, nothing otherwise.
pub open spec fn contribution(selected: Seq<Seq<char>>, chapter: ChapterView) -> Option<
    Seq<char>,
> {
    if is_included(selected, chapter) {
        Some(chapter.content + chapter_padding())
    } else {
        None
    }
}

/// The content that the selected paths assemble to: the contributions of
/// the book's chapters, in the book's order, joined.
pub open spec fn assembled_content(selected: Seq<Seq<char>>, chapters: Seq<ChapterView>) -> Seq<
    char,
> {
    chapters.filter_map(|c: ChapterView| contribution(selected, c)).flatten()
}

/// What assembling gives: the content, or a failure where it is empty.
pub open spec fn assembly(selected: Seq<Seq<char>>, chapters: Seq<ChapterView>) -> Result<
    Seq<char>,
    DocumentErrorView,
> {
    let content = assembled_content(selected, chapters);
    if content.len() == 0 {
        Err(DocumentErrorView::EmptyFilteredContent)
    } else {
        Ok(content)
    }
}

/// The content of a document: its chapters are selected, then assembled.
pub open spec fn filtered_content(doc: DocumentView, chapters: Seq<ChapterView>) -> Result<
    Seq<char>,
    DocumentErrorView,
> {
    match document_selection(doc, chapters) {
        Ok(selected) => assembly(selected, chapters),
        Err(e) => Err(e),
    }
}

/// Whether the path is among the given ones.
pub fn contains_path(paths: &Vec<String>, path: &String) -> (found: bool)
    ensures
        found == paths.deep_view().contains(path@),
{
    let ghost texts = paths.deep_view();
    let mut k: usize = 0;
    while k < paths.len()
        invariant
            0 <= k <= paths.len(),
            texts == paths.deep_view(),
            forall|j: int| 0 <= j < k ==> texts[j] != path@,
        decreases paths.len() - k,
    {
        if paths[k] == *path {
            assert(texts[k as int] == path@);
            return true;
        }
        k = k + 1;
    }
    false
}

/// Joins the content of the selected chapters.
///
/// Every chapter of the book whose path is among `selected` adds its whole
/// text followed by two newlines, in the book's order. Content that comes
/// out empty is a failure.
pub fn assemble_content(selected: &Vec<String>, book: &Book) -> (r: Result<
    DocumentContent,
    DocumentError,
>)
    ensures
        match r {
            Ok(content) => assembly(selected.deep_view(), book@) == Ok::<
                Seq<char>,
                DocumentErrorView,
            >(content@),
            Err(e) => assembly(selected.deep_view(), book@) == Err::<
                Seq<char>,
                DocumentErrorView,
            >(e@),
        },
{
    let ghost wanted = selected.deep_view();
    let ghost chapters = book@;
    let ghost add = |c: ChapterView| contribution(wanted, c);
    let mut content = String::new();
    let mut i: usize = 0;
    while i < book.chapters.len()
        invariant
            0 <= i <= book.chapters.len(),
            chapters == book@,
            wanted == selected.deep_view(),
            add == |c: ChapterView| contribution(wanted, c),
            content@ == chapters.take(i as int).filter_map(add).flatten(),
        decreases book.chapters.len() - i,
    {
        let chapter = &book.chapters[i];
        let ghost parts = chapters.take(i as int).filter_map(add);
        proof {
            chapters.lemma_filter_map_take_succ(add, i as int);
        }
        match &chapter.path {
            Some(path) => {
                if contains_path(selected, path) {
                    content.append(chapter.content.as_str());
                    content.append("\n\n");
                    proof {
                        reveal_strlit("\n\n");
                        let piece = chapter@.content + chapter_padding();
                        parts.lemma_flatten_push(piece);
                        assert(parts + seq![piece] =~= parts.push(piece));
                    }
                }
            },
            None => {},
        }
        i = i + 1;
    }
    assert(chapters.take(chapters.len() as int) =~= chapters);
    if content.as_str().is_empty() {
        Err(DocumentError::EmptyFilteredContent)
    } else {
        Ok(DocumentContent { value: content })
    }
}

impl Document {
    /// The content of the document: the text of the chapters it selects from
    /// the book, joined.
    pub fn get_filtered_content(&self, context: &RenderContext) -> (r: Result<
        DocumentContent,
        DocumentError,
    >)
        ensures
            match r {
                Ok(content) => filtered_content(self@, context.book@) == Ok::<
                    Seq<char>,
                    DocumentErrorView,
                >(content@),
                Err(e) => filtered_content(self@, context.book@) == Err::<
                    Seq<char>,
                    DocumentErrorView,
                >(e@),
            },
    {
        match self.get_chapters(context) {
            Ok(selected) => assemble_content(&selected, &context.book),
            Err(e) => Err(e),
        }
    }
}

} // verus!
