//! The book as the host presents it: a root directory and the chapters in
//! traversal order.

use vstd::prelude::*;

verus! {

/// One chapter of the book.
#[derive(Clone, Debug, PartialEq, Eq)]
pub struct Chapter {
    /// Path of the chapter's file relative to the book's sources. Chapters
    /// that are not backed by a file have none.
    pub path: Option<String>,
    /// The chapter's markdown text.
    pub content: String,
    /// Whether the chapter is a draft.
    pub is_draft: bool,
}

/// The mathematical value of a [`Chapter`].
pub ghost struct ChapterView {
    pub path: Option<Seq<char>>,
    pub content: Seq<char>,
    pub is_draft: bool,
}

impl View for Chapter {
    type V = ChapterView;

    open spec fn view(&self) -> ChapterView {
        ChapterView {
            path: self.path.deep_view(),
            content: self.content@,
            is_draft: self.is_draft,
        }
    }
}

impl DeepView for Chapter {
    type V = ChapterView;

    open spec fn deep_view(&self) -> ChapterView {
        self@
    }
}

/// The chapters of a book, flattened in the host's traversal order.
#[derive(Clone, Debug, PartialEq, Eq)]
pub struct Book {
    pub chapters: Vec<Chapter>,
}

impl View for Book {
    type V = Seq<ChapterView>;

    open spec fn view(&self) -> Seq<ChapterView> {
        self.chapters.deep_view()
    }
}

/// What a renderer is handed: the directory that holds the book and the
/// book itself.
#[derive(Clone, Debug, PartialEq, Eq)]
pub struct RenderContext {
    /// Directory of the book's configuration file; every relative path of a
    /// document is resolved against it.
    pub root: String,
    pub book: Book,
}

} // verus!
