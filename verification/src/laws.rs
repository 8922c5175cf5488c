//! What holds of selection, assembly, options and runs, whatever the book
//! and the documents are.

use crate::book::ChapterView;
use crate::convert::{combine_inputs, combine_job, merge_inputs, primary_job};
use crate::document::{
    assembled_content, chapter_padding, contribution, document_selection, filtered_content,
    is_included, is_selectable, listed, matched_chapters, matches_any, picked_path, picked_paths,
    selected_paths, DocumentView,
};
use crate::error::{ConverterErrorView, DocumentErrorView};
use crate::pandoc::{assigned, conversion_options, PandocConfigView};
use crate::path::{joined_path, resolved_paths, ResolvedPathsView};
use crate::pattern::{
    compiled_patterns, first_invalid, lemma_first_invalid_skips_valid, pattern_is_valid,
    pattern_matches, wildcard,
};
use crate::run::{
    first_step, next_job, resumed_step, run, step_after, step_through, Pending, Stage, StepView,
};
use vstd::prelude::*;

verus! {

/// The paths of all chapters that have one and are no draft, in the book's
/// order.
pub open spec fn selectable_paths(chapters: Seq<ChapterView>) -> Seq<Seq<char>> {
    chapters.filter(|c: ChapterView| is_selectable(c)).map_values(
        |c: ChapterView| c.path.unwrap(),
    )
}

/// What the chapter at `k` adds to the picked paths.
spec fn pick_at(chapters: Seq<ChapterView>, matched: Seq<bool>, k: int) -> Seq<Seq<char>> {
    match picked_path(chapters, matched, k) {
        Some(path) => seq![path],
        None => Seq::empty(),
    }
}

/// The paths picked from the first `k + 1` chapters are those picked from
/// the first `k`, followed by what the chapter at `k` adds.
proof fn lemma_picked_grows(chapters: Seq<ChapterView>, matched: Seq<bool>, k: int)
    requires
        0 <= k < chapters.len(),
    ensures
        picked_paths(chapters.take(k + 1), matched) == picked_paths(chapters.take(k), matched)
            + pick_at(chapters, matched, k),
{
    let itself = |p: Option<Seq<char>>| p;
    let longer = Seq::new((k + 1) as nat, |i: int| picked_path(chapters.take(k + 1), matched, i));
    let shorter = Seq::new(k as nat, |i: int| picked_path(chapters.take(k), matched, i));
    assert(longer.take(k) =~= shorter);
    longer.lemma_filter_map_take_succ(itself, k);
}

/// Law: every picked path is the path of a chapter of the book that has
/// one, is no draft and is flagged as matched.
pub proof fn lemma_picked_path_has_chapter(
    chapters: Seq<ChapterView>,
    matched: Seq<bool>,
    at: int,
)
    requires
        0 <= at < picked_paths(chapters, matched).len(),
    ensures
        exists|k: int|
            0 <= k < chapters.len() && #[trigger] picked_path(chapters, matched, k) == Some(
                picked_paths(chapters, matched)[at],
            ),
{
    assert(chapters.take(chapters.len() as int) =~= chapters);
    lemma_picked_upto_has_chapter(chapters, matched, chapters.len() as int, at);
}

/// Every path picked from the first `n` chapters is the path of one of them
/// that is picked.
proof fn lemma_picked_upto_has_chapter(
    chapters: Seq<ChapterView>,
    matched: Seq<bool>,
    n: int,
    at: int,
)
    requires
        0 <= n <= chapters.len(),
        0 <= at < picked_paths(chapters.take(n), matched).len(),
    ensures
        exists|k: int|
            0 <= k < n && #[trigger] picked_path(chapters, matched, k) == Some(
                picked_paths(chapters.take(n), matched)[at],
            ),
    decreases n,
{
    if n > 0 {
        lemma_picked_grows(chapters, matched, n - 1);
        if at < picked_paths(chapters.take(n - 1), matched).len() {
            lemma_picked_upto_has_chapter(chapters, matched, n - 1, at);
        }
    }
}

/// Law: a chapter that has a path, is no draft and is flagged as matched
/// has its path among the picked ones.
pub proof fn lemma_picked_chapter_is_included(
    chapters: Seq<ChapterView>,
    matched: Seq<bool>,
    k: int,
)
    requires
        0 <= k < chapters.len(),
        picked_path(chapters, matched, k) is Some,
    ensures
        is_included(picked_paths(chapters, matched), chapters[k]),
{
    assert(chapters.take(chapters.len() as int) =~= chapters);
    lemma_picked_upto_holds(chapters, matched, chapters.len() as int, k);
}

/// The path of a picked chapter is among those picked from any stretch of
/// the book that reaches beyond it.
proof fn lemma_picked_upto_holds(chapters: Seq<ChapterView>, matched: Seq<bool>, n: int, k: int)
    requires
        0 <= k < n <= chapters.len(),
        picked_path(chapters, matched, k) is Some,
    ensures
        picked_paths(chapters.take(n), matched).contains(chapters[k].path.unwrap()),
    decreases n,
{
    let path = chapters[k].path.unwrap();
    let before = picked_paths(chapters.take(n - 1), matched);
    let through = picked_paths(chapters.take(n), matched);
    lemma_picked_grows(chapters, matched, n - 1);
    if k == n - 1 {
        assert(through[before.len() as int] == path);
    } else {
        lemma_picked_upto_holds(chapters, matched, n - 1, k);
        let at = choose|at: int| 0 <= at < before.len() && before[at] == path;
        assert(through[at] == path);
    }
}

/// With the wildcard as the only pattern, the first `n` chapters give the
/// path of each of them that has one and is no draft.
proof fn lemma_wildcard_selects_selectable(chapters: Seq<ChapterView>, n: int)
    requires
        0 <= n <= chapters.len(),
    ensures
        picked_paths(chapters.take(n), matched_chapters(seq![wildcard()], chapters))
            == selectable_paths(chapters.take(n)),
    decreases n,
{
    reveal(Seq::filter);
    if n > 0 {
        let patterns = seq![wildcard()];
        let last = chapters[n - 1];
        lemma_wildcard_selects_selectable(chapters, n - 1);
        lemma_picked_grows(chapters, matched_chapters(patterns, chapters), n - 1);
        assert(chapters.take(n).drop_last() =~= chapters.take(n - 1));
        if is_selectable(last) {
            assert(pattern_matches(patterns[0], last.path.unwrap()));
        }
    }
}

/// Law: the wildcard alone selects every chapter that has a path and is no
/// draft, in the book's order.
pub proof fn lemma_wildcard_selects_all(chapters: Seq<ChapterView>)
    ensures
        selected_paths(seq![wildcard()], chapters) == selectable_paths(chapters),
{
    lemma_wildcard_selects_selectable(chapters, chapters.len() as int);
    assert(chapters.take(chapters.len() as int) =~= chapters);
}

/// Law: a document whose include list is the wildcard alone selects every
/// chapter that has a path and is no draft, in the book's order. Where the
/// book has no such chapter, selection fails for want of a match.
pub proof fn lemma_wildcard_document_selects_all(doc: DocumentView, chapters: Seq<ChapterView>)
    requires
        doc.includes == Some(seq![wildcard()]),
    ensures
        selectable_paths(chapters).len() > 0 ==> document_selection(doc, chapters) == Ok::<
            Seq<Seq<char>>,
            DocumentErrorView,
        >(selectable_paths(chapters)),
        selectable_paths(chapters).len() == 0 ==> document_selection(doc, chapters) == Err::<
            Seq<Seq<char>>,
            DocumentErrorView,
        >(DocumentErrorView::NoMatchingChapters),
{
    let patterns = seq![wildcard()];
    assert(first_invalid(patterns) is None) by {
        assert(first_invalid(patterns.drop_first()) is None);
    }
    lemma_wildcard_selects_all(chapters);
}

/// Law: a document without an include list, or with an empty one, selects
/// what a document with the wildcard alone selects.
pub proof fn lemma_absent_includes_are_wildcard(
    doc: DocumentView,
    wild: DocumentView,
    chapters: Seq<ChapterView>,
)
    requires
        doc.includes is None || doc.includes == Some(Seq::<Seq<char>>::empty()),
        wild.includes == Some(seq![wildcard()]),
    ensures
        document_selection(doc, chapters) == document_selection(wild, chapters),
{
}

/// Law: where the include patterns of a document are all well-formed and
/// none of them matches a chapter that has a path and is no draft, selection
/// fails for want of a match.
pub proof fn lemma_unmatched_includes_fail(doc: DocumentView, chapters: Seq<ChapterView>)
    requires
        doc.includes is Some,
        doc.includes.unwrap().len() > 0,
        forall|k: int|
            0 <= k < doc.includes.unwrap().len() ==> pattern_is_valid(
                #[trigger] doc.includes.unwrap()[k],
            ),
        forall|i: int, k: int|
            0 <= i < chapters.len() && is_selectable(#[trigger] chapters[i]) && 0 <= k
                < doc.includes.unwrap().len() ==> !pattern_matches(
                #[trigger] doc.includes.unwrap()[k],
                chapters[i].path.unwrap(),
            ),
    ensures
        document_selection(doc, chapters) == Err::<Seq<Seq<char>>, DocumentErrorView>(
            DocumentErrorView::NoMatchingChapters,
        ),
{
    let patterns = doc.includes.unwrap();
    let matched = matched_chapters(patterns, chapters);
    lemma_first_invalid_skips_valid(patterns, patterns.len() as int);
    assert(compiled_patterns(listed(doc.includes)) == Ok::<Seq<Seq<char>>, DocumentErrorView>(
        patterns,
    ));
    if picked_paths(chapters, matched).len() > 0 {
        lemma_picked_path_has_chapter(chapters, matched, 0);
        let i = choose|i: int|
            0 <= i < chapters.len() && #[trigger] picked_path(chapters, matched, i) == Some(
                picked_paths(chapters, matched)[0],
            );
        assert(matches_any(patterns, chapters[i].path.unwrap()));
        assert(false);
    }
}

/// Whether `piece` stands somewhere in `text`, unbroken.
pub open spec fn occurs_in(piece: Seq<char>, text: Seq<char>) -> bool {
    exists|at: int|
        0 <= at && at + piece.len() <= text.len() && #[trigger] text.subrange(
            at,
            at + piece.len(),
        ) == piece
}

/// What the chapter at `k` adds to the content.
spec fn piece_at(selected: Seq<Seq<char>>, chapters: Seq<ChapterView>, k: int) -> Seq<char> {
    match contribution(selected, chapters[k]) {
        Some(text) => text,
        None => Seq::empty(),
    }
}

/// The content of the first `k + 1` chapters is that of the first `k`,
/// followed by what the chapter at `k` adds.
proof fn lemma_content_grows(selected: Seq<Seq<char>>, chapters: Seq<ChapterView>, k: int)
    requires
        0 <= k < chapters.len(),
    ensures
        assembled_content(selected, chapters.take(k + 1)) == assembled_content(
            selected,
            chapters.take(k),
        ) + piece_at(selected, chapters, k),
{
    let add = |c: ChapterView| contribution(selected, c);
    let parts = chapters.take(k).filter_map(add);
    chapters.lemma_filter_map_take_succ(add, k);
    match contribution(selected, chapters[k]) {
        Some(text) => {
            parts.lemma_flatten_push(text);
            assert(parts + seq![text] =~= parts.push(text));
        },
        None => {},
    }
}

/// Chapters that are not included add nothing.
proof fn lemma_content_unchanged(
    selected: Seq<Seq<char>>,
    chapters: Seq<ChapterView>,
    from: int,
    to: int,
)
    requires
        0 <= from <= to <= chapters.len(),
        forall|m: int| from <= m < to ==> !is_included(selected, #[trigger] chapters[m]),
    ensures
        assembled_content(selected, chapters.take(to)) == assembled_content(
            selected,
            chapters.take(from),
        ),
    decreases to - from,
{
    if from < to {
        lemma_content_unchanged(selected, chapters, from, to - 1);
        lemma_content_grows(selected, chapters, to - 1);
    }
}

/// The content of the first `k` chapters opens the content of the book.
proof fn lemma_content_is_prefix(selected: Seq<Seq<char>>, chapters: Seq<ChapterView>, k: int)
    requires
        0 <= k <= chapters.len(),
    ensures
        assembled_content(selected, chapters.take(k)).is_prefix_of(
            assembled_content(selected, chapters),
        ),
    decreases chapters.len() - k,
{
    if k == chapters.len() {
        assert(chapters.take(k) =~= chapters);
    } else {
        lemma_content_is_prefix(selected, chapters, k + 1);
        lemma_content_grows(selected, chapters, k);
    }
}

/// Law: where two included chapters follow one another in the book with no
/// included chapter between them, the assembled content holds the text of
/// the first, two newlines and the text of the second, unbroken.
pub proof fn lemma_adjacent_chapters_are_joined(
    selected: Seq<Seq<char>>,
    chapters: Seq<ChapterView>,
    first: int,
    second: int,
)
    requires
        0 <= first < second < chapters.len(),
        is_included(selected, chapters[first]),
        is_included(selected, chapters[second]),
        forall|m: int| first < m < second ==> !is_included(selected, #[trigger] chapters[m]),
    ensures
        occurs_in(
            chapters[first].content + chapter_padding() + chapters[second].content,
            assembled_content(selected, chapters),
        ),
{
    let whole = assembled_content(selected, chapters);
    let before = assembled_content(selected, chapters.take(first));
    let through = assembled_content(selected, chapters.take(second + 1));
    let piece = chapters[first].content + chapter_padding() + chapters[second].content;
    lemma_content_grows(selected, chapters, first);
    lemma_content_unchanged(selected, chapters, first + 1, second);
    lemma_content_grows(selected, chapters, second);
    lemma_content_is_prefix(selected, chapters, second + 1);
    let at = before.len() as int;
    assert(through.subrange(at, at + piece.len()) =~= piece);
    assert(whole.subrange(at, at + piece.len()) =~= piece);
}

/// Law: a book in which a chapter is included assembles to content that is
/// not empty.
pub proof fn lemma_included_chapter_gives_content(
    selected: Seq<Seq<char>>,
    chapters: Seq<ChapterView>,
    k: int,
)
    requires
        0 <= k < chapters.len(),
        is_included(selected, chapters[k]),
    ensures
        assembled_content(selected, chapters).len() > 0,
{
    lemma_content_grows(selected, chapters, k);
    lemma_content_is_prefix(selected, chapters, k + 1);
}

/// Law: the content of a document never comes out empty. Where a document
/// selects chapters at all, they assemble to content, so its content fails
/// only for a malformed pattern or for want of a match.
pub proof fn lemma_selection_has_content(doc: DocumentView, chapters: Seq<ChapterView>)
    ensures
        filtered_content(doc, chapters) != Err::<Seq<char>, DocumentErrorView>(
            DocumentErrorView::EmptyFilteredContent,
        ),
{
    if let Ok(patterns) = compiled_patterns(listed(doc.includes)) {
        let matched = matched_chapters(patterns, chapters);
        let selected = picked_paths(chapters, matched);
        if selected.len() > 0 {
            lemma_picked_path_has_chapter(chapters, matched, 0);
            let k = choose|k: int|
                0 <= k < chapters.len() && #[trigger] picked_path(chapters, matched, k) == Some(
                    selected[0],
                );
            lemma_picked_chapter_is_included(chapters, matched, k);
            lemma_included_chapter_gives_content(selected, chapters, k);
        }
    }
}

/// Law: assigning a document's options is idempotent. The options depend on
/// the root and the document alone, so two configurations that are assigned
/// the same document hold the same options, and a second assignment changes
/// nothing.
pub proof fn lemma_assigning_options_is_idempotent(
    config: PandocConfigView,
    other: PandocConfigView,
    root: Seq<char>,
    doc: DocumentView,
)
    ensures
        assigned(config, root, doc).options == assigned(other, root, doc).options,
        assigned(assigned(config, root, doc), root, doc) == assigned(config, root, doc),
{
}

/// Law: a merge reads the files to prepend, then the converted chapters,
/// then the files to append, each list in its order, however long either
/// list is.
pub proof fn lemma_merge_order(paths: ResolvedPathsView)
    ensures
        merge_inputs(paths).len() == paths.prepend.len() + 1 + paths.append.len(),
        forall|i: int|
            0 <= i < paths.prepend.len() ==> #[trigger] merge_inputs(paths)[i] == paths.prepend[i],
        merge_inputs(paths)[paths.prepend.len() as int] == paths.primary_output,
        forall|i: int|
            0 <= i < paths.append.len() ==> #[trigger] merge_inputs(paths)[paths.prepend.len() + 1
                + i] == paths.append[i],
{
}

/// Law: the merge for a document reads the document's files to prepend,
/// then the converted chapters, then the document's files to append, each
/// resolved against the root and each list in the document's order.
pub proof fn lemma_combine_order(root: Seq<char>, doc: DocumentView)
    ensures
        combine_inputs(root, doc).len() == listed(doc.prepend).len() + 1 + listed(
            doc.append,
        ).len(),
        forall|i: int|
            0 <= i < listed(doc.prepend).len() ==> #[trigger] combine_inputs(root, doc)[i]
                == joined_path(root, listed(doc.prepend)[i]),
        combine_inputs(root, doc)[listed(doc.prepend).len() as int] == resolved_paths(
            root,
            doc,
        ).primary_output,
        forall|i: int|
            0 <= i < listed(doc.append).len() ==> #[trigger] combine_inputs(
                root,
                doc,
            )[listed(doc.prepend).len() + 1 + i] == joined_path(root, listed(doc.append)[i]),
{
}

/// Law: both jobs of a document carry the same options, those that its
/// fields stand for.
pub proof fn lemma_jobs_share_options(
    root: Seq<char>,
    doc: DocumentView,
    chapters: Seq<ChapterView>,
)
    requires
        primary_job(root, doc, chapters) is Ok,
        combine_job(root, doc) is Some,
    ensures
        primary_job(root, doc, chapters)->Ok_0->Convert_options == conversion_options(root, doc),
        combine_job(root, doc)->Some_0->Combine_options == conversion_options(root, doc),
{
}

/// Whether `later` comes behind `earlier` in a run: it is the merge of the
/// same document behind its conversion, or the conversion of a document
/// further down the list.
pub open spec fn comes_after(later: Pending, earlier: Pending) -> bool {
    ||| later.document == earlier.document && earlier.stage == Stage::Primary && later.stage
        == Stage::Combine
    ||| later.document > earlier.document && later.stage == Stage::Primary
}

/// A job that is asked for at or behind a document belongs to that document
/// or to a later one of the list, and it is a conversion unless it is the
/// merge that follows the conversion just done.
proof fn lemma_step_after_goes_forward(
    list: Seq<DocumentView>,
    root: Seq<char>,
    chapters: Seq<ChapterView>,
    document: nat,
    done: Option<Stage>,
)
    requires
        list.len() <= usize::MAX,
        step_after(list, root, chapters, document, done) is Convert,
    ensures
        ({
            let pending = step_after(list, root, chapters, document, done)->Convert_pending;
            &&& document <= pending.document < list.len()
            &&& pending.document == document ==> done != Some(Stage::Combine) && pending.stage
                == (if done is None {
                Stage::Primary
            } else {
                Stage::Combine
            })
            &&& pending.document > document ==> pending.stage == Stage::Primary
        }),
    decreases list.len() - document,
{
    if document < list.len() {
        match next_job(root, list[document as int], chapters, done) {
            Ok(None) => {
                lemma_step_after_goes_forward(list, root, chapters, document + 1, None);
            },
            _ => {},
        }
    }
}

/// Law: a run goes through the list in order, and through each document's
/// jobs in order. The job that is asked for after a success comes behind the
/// job that succeeded: it is the merge of the same document, or the
/// conversion of a later one. So no job is asked for twice. The list is one
/// that a [`crate::document::DocumentList`] can hold.
pub proof fn lemma_run_goes_forward(
    list: Seq<DocumentView>,
    root: Seq<char>,
    chapters: Seq<ChapterView>,
    pending: Pending,
)
    requires
        list.len() <= usize::MAX,
        resumed_step(list, root, chapters, pending, None) is Convert,
    ensures
        comes_after(
            resumed_step(list, root, chapters, pending, None)->Convert_pending,
            pending,
        ),
{
    lemma_step_after_goes_forward(
        list,
        root,
        chapters,
        pending.document as nat,
        Some(pending.stage),
    );
}

/// Outcomes that come in two parts are followed one part after the other.
proof fn lemma_step_through_splits(
    list: Seq<DocumentView>,
    root: Seq<char>,
    chapters: Seq<ChapterView>,
    step: StepView,
    before: Seq<Option<ConverterErrorView>>,
    after: Seq<Option<ConverterErrorView>>,
)
    ensures
        step_through(list, root, chapters, step, before + after) == step_through(
            list,
            root,
            chapters,
            step_through(list, root, chapters, step, before),
            after,
        ),
    decreases before.len(),
{
    if before.len() > 0 {
        assert((before + after).drop_first() =~= before.drop_first() + after);
        match step {
            StepView::Convert { job, pending } => {
                lemma_step_through_splits(
                    list,
                    root,
                    chapters,
                    resumed_step(list, root, chapters, pending, before.first()),
                    before.drop_first(),
                    after,
                );
            },
            _ => {
                lemma_step_ended_stays(list, root, chapters, step, after);
            },
        }
    }
}

/// A run that has ended stays where it is.
proof fn lemma_step_ended_stays(
    list: Seq<DocumentView>,
    root: Seq<char>,
    chapters: Seq<ChapterView>,
    step: StepView,
    outcomes: Seq<Option<ConverterErrorView>>,
)
    requires
        !(step is Convert),
    ensures
        step_through(list, root, chapters, step, outcomes) == step,
{
}

/// Law: a document whose chapters cannot be converted stops the run with
/// its own failure: where the run comes to such a document, the next step
/// is that failure, whatever documents follow.
pub proof fn lemma_failing_document_stops_run(
    list: Seq<DocumentView>,
    root: Seq<char>,
    chapters: Seq<ChapterView>,
    document: nat,
)
    requires
        document < list.len(),
        primary_job(root, list[document as int], chapters) is Err,
    ensures
        step_after(list, root, chapters, document, None) == StepView::Failed(
            primary_job(root, list[document as int], chapters)->Err_0,
        ),
{
}

/// Law: a run stops at the first failure of the converter. Where the
/// converter fails at a job, the run ends with exactly that failure,
/// whatever the converter would have answered afterwards: no further job is
/// asked of it.
pub proof fn lemma_converter_failure_ends_run(
    list: Seq<DocumentView>,
    root: Seq<char>,
    chapters: Seq<ChapterView>,
    before: Seq<Option<ConverterErrorView>>,
    failure: ConverterErrorView,
    after: Seq<Option<ConverterErrorView>>,
)
    requires
        run(list, root, chapters, before) is Convert,
    ensures
        run(list, root, chapters, before + seq![Some(failure)] + after) == StepView::Failed(
            DocumentErrorView::ConverterExecution(failure),
        ),
{
    let start = first_step(list, root, chapters);
    let failed = StepView::Failed(DocumentErrorView::ConverterExecution(failure));
    let one = seq![Some(failure)];
    lemma_step_through_splits(list, root, chapters, start, before + one, after);
    lemma_step_through_splits(list, root, chapters, start, before, one);
    let at = step_through(list, root, chapters, start, before);
    assert(step_through(list, root, chapters, at, one) == failed) by {
        reveal_with_fuel(step_through, 2);
    }
    lemma_step_ended_stays(list, root, chapters, failed, after);
}

/// Law: a run that has ended, in failure or in success, has ended for good:
/// it stands at the same step whatever else the converter might answer.
pub proof fn lemma_ended_run_stays_ended(
    list: Seq<DocumentView>,
    root: Seq<char>,
    chapters: Seq<ChapterView>,
    before: Seq<Option<ConverterErrorView>>,
    after: Seq<Option<ConverterErrorView>>,
)
    requires
        !(run(list, root, chapters, before) is Convert),
    ensures
        run(list, root, chapters, before + after) == run(list, root, chapters, before),
{
    let start = first_step(list, root, chapters);
    lemma_step_through_splits(list, root, chapters, start, before, after);
    lemma_step_ended_stays(
        list,
        root,
        chapters,
        step_through(list, root, chapters, start, before),
        after,
    );
}

/// As long as the first `n` documents are not all done, the steps behind a
/// job of one of them do not depend on the documents that follow.
proof fn lemma_step_after_ignores_rest(
    list: Seq<DocumentView>,
    n: int,
    root: Seq<char>,
    chapters: Seq<ChapterView>,
    document: nat,
    done: Option<Stage>,
)
    requires
        0 <= n <= list.len(),
        !(step_after(list.take(n), root, chapters, document, done) is Finished),
    ensures
        step_after(list, root, chapters, document, done) == step_after(
            list.take(n),
            root,
            chapters,
            document,
            done,
        ),
    decreases n - document,
{
    if document < n {
        match next_job(root, list[document as int], chapters, done) {
            Ok(None) => {
                lemma_step_after_ignores_rest(list, n, root, chapters, document + 1, None);
            },
            _ => {},
        }
    }
}

/// As long as the run over the first `n` documents has not finished, the
/// run over the whole list goes the same way.
proof fn lemma_step_through_ignores_rest(
    list: Seq<DocumentView>,
    n: int,
    root: Seq<char>,
    chapters: Seq<ChapterView>,
    step: StepView,
    outcomes: Seq<Option<ConverterErrorView>>,
)
    requires
        0 <= n <= list.len(),
        !(step_through(list.take(n), root, chapters, step, outcomes) is Finished),
    ensures
        step_through(list, root, chapters, step, outcomes) == step_through(
            list.take(n),
            root,
            chapters,
            step,
            outcomes,
        ),
    decreases outcomes.len(),
{
    if outcomes.len() > 0 {
        match step {
            StepView::Convert { job, pending } => {
                let short = resumed_step(list.take(n), root, chapters, pending, outcomes.first());
                if short is Finished {
                    lemma_step_ended_stays(
                        list.take(n),
                        root,
                        chapters,
                        short,
                        outcomes.drop_first(),
                    );
                } else {
                    if outcomes.first() is None {
                        lemma_step_after_ignores_rest(
                            list,
                            n,
                            root,
                            chapters,
                            pending.document as nat,
                            Some(pending.stage),
                        );
                    }
                    lemma_step_through_ignores_rest(
                        list,
                        n,
                        root,
                        chapters,
                        short,
                        outcomes.drop_first(),
                    );
                }
            },
            _ => {},
        }
    }
}

/// Law: the documents behind a failure are never looked at. As long as the
/// run over the first `n` documents of a list has not come to its end in
/// success, the run over the whole list stands at the same step: it asks
/// for the same job or has stopped with the same failure, whatever the
/// documents after the first `n` are.
pub proof fn lemma_run_ignores_later_documents(
    list: Seq<DocumentView>,
    n: int,
    root: Seq<char>,
    chapters: Seq<ChapterView>,
    outcomes: Seq<Option<ConverterErrorView>>,
)
    requires
        0 <= n <= list.len(),
        !(run(list.take(n), root, chapters, outcomes) is Finished),
    ensures
        run(list, root, chapters, outcomes) == run(list.take(n), root, chapters, outcomes),
{
    let short = first_step(list.take(n), root, chapters);
    if short is Finished {
        lemma_step_ended_stays(list.take(n), root, chapters, short, outcomes);
    } else {
        lemma_step_after_ignores_rest(list, n, root, chapters, 0, None);
        lemma_step_through_ignores_rest(list, n, root, chapters, short, outcomes);
    }
}

} // verus!
