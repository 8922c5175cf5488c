//! Include patterns: glob strings compiled into matchers.

use crate::error::{DocumentError, DocumentErrorView};
use vstd::prelude::*;

verus! {

/// `glob::Pattern`, a compiled glob. Nothing is known of what it holds.
#[verifier::external_type_specification]
#[verifier::external_body]
pub struct ExGlobPattern(glob::Pattern);

/// `glob::PatternError`, the reason why a text is no glob. Nothing is known
/// of what it holds.
#[verifier::external_type_specification]
#[verifier::external_body]
pub struct ExGlobPatternError(glob::PatternError);

/// Whether `glob::Pattern::new` accepts the text as a pattern. The answer
/// depends on the text alone, and on which characters separate the parts of
/// a path on the platform that the crate is built for.
pub uninterp spec fn glob_compiles(pattern: Seq<char>) -> bool;

/// Whether the pattern compiled from `pattern` matches `path` under
/// `glob::Pattern::matches_path`, that is, with the options of
/// `glob::MatchOptions::new`: case counts, and `*` and `?` match a
/// separator like any other character. The answer depends on the two texts
/// alone, and on the platform's separators.
pub uninterp spec fn glob_matches(pattern: Seq<char>, path: Seq<char>) -> bool;

/// The pattern that matches every path.
pub open spec fn wildcard() -> Seq<char> {
    seq!['*']
}

/// Whether the text is a usable include pattern.
pub open spec fn pattern_is_valid(pattern: Seq<char>) -> bool {
    pattern == wildcard() || glob_compiles(pattern)
}

/// Whether an include pattern matches a path.
pub open spec fn pattern_matches(pattern: Seq<char>, path: Seq<char>) -> bool {
    pattern == wildcard() || glob_matches(pattern, path)
}

/// A compiled include pattern. Its view is the text it was compiled from.
#[derive(Debug)]
pub struct IncludePattern {
    source: String,
    compiled: glob::Pattern,
}

impl View for IncludePattern {
    type V = Seq<char>;

    closed spec fn view(&self) -> Seq<char> {
        self.source@
    }
}

/// Compiles a pattern with `glob::Pattern::new`.
///
/// Trusted: the call succeeds exactly on the texts that `glob_compiles`
/// names, the lone `*` among them, and the compiled pattern is kept together
/// with the text it came from. The call does not panic.
#[verifier::external_body]
fn glob_compile(source: &str) -> (r: Result<IncludePattern, glob::PatternError>)
    ensures
        r is Ok <==> glob_compiles(source@),
        source@ == wildcard() ==> r is Ok,
        r matches Ok(p) ==> p@ == source@,
{
    match glob::Pattern::new(source) {
        Ok(compiled) => Ok(IncludePattern { source: source.to_owned(), compiled }),
        Err(e) => Err(e),
    }
}

/// Matches a path with `glob::Pattern::matches_path`.
///
/// Trusted: the answer is the one that `glob_matches` names for the text
/// that the pattern was compiled from and the path, and the lone `*`
/// matches every path, the empty one too. The call does not panic.
#[verifier::external_body]
fn glob_match(pattern: &IncludePattern, path: &str) -> (m: bool)
    ensures
        m == glob_matches(pattern@, path@),
        pattern@ == wildcard() ==> m,
{
    pattern.compiled.matches_path(std::path::Path::new(path))
}

/// What compiling one text gives: the text itself as the pattern's view, or
/// the failure that names the text.
pub open spec fn compiled_pattern(source: Seq<char>) -> Result<Seq<char>, DocumentErrorView> {
    if pattern_is_valid(source) {
        Ok(source)
    } else {
        Err(DocumentErrorView::PatternCompile(source))
    }
}

impl IncludePattern {
    /// Compiles one include pattern. A text that is no valid glob is a
    /// failure that holds the text.
    pub fn compile(source: &str) -> (r: Result<IncludePattern, DocumentError>)
        ensures
            match r {
                Ok(pattern) => compiled_pattern(source@) == Ok::<Seq<char>, DocumentErrorView>(
                    pattern@,
                ),
                Err(e) => compiled_pattern(source@) == Err::<Seq<char>, DocumentErrorView>(e@),
            },
    {
        match glob_compile(source) {
            Ok(pattern) => Ok(pattern),
            Err(_) => Err(DocumentError::PatternCompile(source.to_owned())),
        }
    }

    /// Whether this pattern matches the path.
    pub fn matches(&self, path: &str) -> (m: bool)
        ensures
            m == pattern_matches(self@, path@),
    {
        glob_match(self, path)
    }
}

/// The patterns that an include list stands for: the list itself, or the
/// wildcard alone where the list is empty.
pub open spec fn effective_patterns(includes: Seq<Seq<char>>) -> Seq<Seq<char>> {
    if includes.len() == 0 {
        seq![wildcard()]
    } else {
        includes
    }
}

/// The first text of the list that is no valid pattern, if there is one.
pub open spec fn first_invalid(patterns: Seq<Seq<char>>) -> Option<Seq<char>>
    decreases patterns.len(),
{
    if patterns.len() == 0 {
        None
    } else if !pattern_is_valid(patterns.first()) {
        Some(patterns.first())
    } else {
        first_invalid(patterns.drop_first())
    }
}

/// What compiling an include list gives: the effective patterns, or the
/// first of them that is malformed.
pub open spec fn compiled_patterns(includes: Seq<Seq<char>>) -> Result<
    Seq<Seq<char>>,
    DocumentErrorView,
> {
    match first_invalid(effective_patterns(includes)) {
        Some(bad) => Err(DocumentErrorView::PatternCompile(bad)),
        None => Ok(effective_patterns(includes)),
    }
}

/// The views of compiled patterns, in order.
pub open spec fn pattern_texts(patterns: Seq<IncludePattern>) -> Seq<Seq<char>> {
    patterns.map_values(|p: IncludePattern| p@)
}

/// A list whose first `n` texts are valid has its first invalid text, if
/// any, at or after position `n`.
pub(crate) proof fn lemma_first_invalid_skips_valid(patterns: Seq<Seq<char>>, n: int)
    requires
        0 <= n <= patterns.len(),
        forall|j: int| 0 <= j < n ==> pattern_is_valid(#[trigger] patterns[j]),
    ensures
        first_invalid(patterns) == first_invalid(patterns.skip(n)),
    decreases n,
{
    if n == 0 {
        assert(patterns.skip(0) =~= patterns);
    } else {
        let rest = patterns.drop_first();
        assert forall|j: int| 0 <= j < n - 1 implies pattern_is_valid(#[trigger] rest[j]) by {
        }
        lemma_first_invalid_skips_valid(rest, n - 1);
        assert(rest.skip(n - 1) =~= patterns.skip(n));
    }
}

/// The include list as it is compiled: the list itself, or the wildcard
/// alone where the list is empty. It is never empty.
pub fn effective_includes(includes: &Vec<String>) -> (sources: Vec<String>)
    ensures
        sources.deep_view() == effective_patterns(includes.deep_view()),
        sources.len() > 0,
{
    let mut sources: Vec<String> = Vec::new();
    if includes.len() == 0 {
        sources.push("*".to_owned());
        proof {
            reveal_strlit("*");
            assert("*"@ =~= wildcard());
        }
        return sources;
    }
    let mut i: usize = 0;
    while i < includes.len()
        invariant
            0 <= i <= includes.len(),
            sources.deep_view() == includes.deep_view().take(i as int),
        decreases includes.len() - i,
    {
        let ghost before = sources.deep_view();
        sources.push(includes[i].clone());
        assert(includes.deep_view().take(i + 1) =~= before.push(includes.deep_view()[i as int]));
        i = i + 1;
    }
    sources
}

/// Compiles an include list. An empty list stands for the wildcard.
///
/// Succeeds exactly when every effective pattern is a valid glob, with the
/// compiled patterns in the list's order; fails with the first malformed one
/// otherwise.
pub fn compile_patterns(includes: &Vec<String>) -> (r: Result<Vec<IncludePattern>, DocumentError>)
    ensures
        match r {
            Ok(patterns) => compiled_patterns(includes.deep_view()) == Ok::<
                Seq<Seq<char>>,
                DocumentErrorView,
            >(pattern_texts(patterns@)),
            Err(e) => compiled_patterns(includes.deep_view()) == Err::<
                Seq<Seq<char>>,
                DocumentErrorView,
            >(e@),
        },
{
    let sources = effective_includes(includes);
    let ghost texts = sources.deep_view();
    let mut patterns: Vec<IncludePattern> = Vec::new();
    let mut i: usize = 0;
    while i < sources.len()
        invariant
            0 <= i <= sources.len(),
            texts == sources.deep_view(),
            texts == effective_patterns(includes.deep_view()),
            patterns@.len() == i,
            forall|j: int| 0 <= j < i ==> (#[trigger] patterns@[j])@ == texts[j],
            forall|j: int| 0 <= j < i ==> pattern_is_valid(#[trigger] texts[j]),
        decreases sources.len() - i,
    {
        let source = &sources[i];
        match IncludePattern::compile(source.as_str()) {
            Ok(pattern) => {
                patterns.push(pattern);
            },
            Err(e) => {
                proof {
                    lemma_first_invalid_skips_valid(texts, i as int);
                }
                return Err(e);
            },
        }
        i = i + 1;
    }
    proof {
        lemma_first_invalid_skips_valid(texts, texts.len() as int);
        assert(pattern_texts(patterns@) =~= texts);
    }
    Ok(patterns)
}

} // verus!
