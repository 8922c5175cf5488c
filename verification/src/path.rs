//! Resolving the paths of a document against the book's root.

use crate::document::{listed, Document, DocumentView};
use vstd::prelude::*;

verus! {

/// The path that `std::path::Path::join` gives for `base` and `path`, both
/// written as text. It is a function of the two texts and of the platform's
/// path conventions, which are fixed when the crate is built.
pub uninterp spec fn joined_path(base: Seq<char>, path: Seq<char>) -> Seq<char>;

/// Resolves `path` against `base` with `std::path::Path::join`.
///
/// Trusted: the result is believed to be the text of the joined path. Both
/// arguments are valid UTF-8, so the joined path is too and no character is
/// replaced when it is turned back into a string.
#[verifier::external_body]
fn join_path(base: &str, path: &str) -> (joined: String)
    ensures
        joined@ == joined_path(base@, path@),
{
    std::path::Path::new(base).join(path).to_string_lossy().into_owned()
}

/// Name of the directory below the book's root that holds its sources.
pub open spec fn source_directory() -> Seq<char> {
    seq!['s', 'r', 'c']
}

/// The directory below the book's root into which the chapters are
/// converted.
pub open spec fn output_directory() -> Seq<char> {
    seq!['b', 'o', 'o', 'k', '/', 'd', 'o', 'c', 'x']
}

/// The paths that a document's conversion works with, resolved against the
/// book's root.
#[derive(Clone, Debug, PartialEq, Eq)]
pub struct ResolvedPaths {
    /// The directory of the book's sources.
    pub sources: String,
    /// The reference document, where the document names a template.
    pub template: Option<String>,
    /// The files to prepend, in the document's order.
    pub prepend: Vec<String>,
    /// The files to append, in the document's order.
    pub append: Vec<String>,
    /// Where the conversion of the chapters is written.
    pub primary_output: String,
}

/// The mathematical value of [`ResolvedPaths`].
pub ghost struct ResolvedPathsView {
    pub sources: Seq<char>,
    pub template: Option<Seq<char>>,
    pub prepend: Seq<Seq<char>>,
    pub append: Seq<Seq<char>>,
    pub primary_output: Seq<char>,
}

impl View for ResolvedPaths {
    type V = ResolvedPathsView;

    open spec fn view(&self) -> ResolvedPathsView {
        ResolvedPathsView {
            sources: self.sources@,
            template: self.template.deep_view(),
            prepend: self.prepend.deep_view(),
            append: self.append.deep_view(),
            primary_output: self.primary_output@,
        }
    }
}

/// The paths, each resolved against the root.
pub open spec fn resolved(root: Seq<char>, paths: Seq<Seq<char>>) -> Seq<Seq<char>> {
    paths.map_values(|p: Seq<char>| joined_path(root, p))
}

/// The resolved paths of a document: the sources lie in `src` below the
/// root, the chapters are converted into `book/docx` below the root under
/// the document's file name, and the template and the files to prepend and
/// to append are taken relative to the root.
pub open spec fn resolved_paths(root: Seq<char>, doc: DocumentView) -> ResolvedPathsView {
    ResolvedPathsView {
        sources: joined_path(root, source_directory()),
        template: match doc.template {
            Some(template) => Some(joined_path(root, template)),
            None => None,
        },
        prepend: resolved(root, listed(doc.prepend)),
        append: resolved(root, listed(doc.append)),
        primary_output: joined_path(joined_path(root, output_directory()), doc.filename),
    }
}

/// Resolves each of the paths against the root. An absent list gives none.
fn resolve_all(root: &String, paths: &Option<Vec<String>>) -> (all: Vec<String>)
    ensures
        all.deep_view() == resolved(root@, listed(paths.deep_view())),
{
    let mut all: Vec<String> = Vec::new();
    match paths {
        Some(list) => {
            let ghost texts = list.deep_view();
            let mut i: usize = 0;
            while i < list.len()
                invariant
                    0 <= i <= list.len(),
                    texts == list.deep_view(),
                    all.deep_view() == resolved(root@, texts.take(i as int)),
                decreases list.len() - i,
            {
                let ghost so_far = all.deep_view();
                all.push(join_path(root.as_str(), list[i].as_str()));
                assert(all.deep_view() =~= so_far.push(joined_path(root@, texts[i as int])));
                i = i + 1;
            }
        },
        None => {},
    }
    all
}

impl Document {
    /// Resolves the document's paths against the book's root.
    pub fn resolve_paths(&self, root: &String) -> (paths: ResolvedPaths)
        ensures
            paths@ == resolved_paths(root@, self@),
    {
        proof {
            reveal_strlit("src");
            reveal_strlit("book/docx");
            assert("src"@ =~= source_directory());
            assert("book/docx"@ =~= output_directory());
        }
        let output_dir = join_path(root.as_str(), "book/docx");
        ResolvedPaths {
            sources: join_path(root.as_str(), "src"),
            template: match &self.template {
                Some(template) => Some(join_path(root.as_str(), template.as_str())),
                None => None,
            },
            prepend: resolve_all(root, &self.prepend),
            append: resolve_all(root, &self.append),
            primary_output: join_path(output_dir.as_str(), self.filename.as_str()),
        }
    }
}

} // verus!
