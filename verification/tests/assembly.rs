use mdbook_docx::book::{Book, Chapter, RenderContext};
use mdbook_docx::document::{assemble_content, contains_path, Document, DocumentContent};
use mdbook_docx::error::DocumentError;

fn chapter(path: &str, content: &str) -> Chapter {
    Chapter { path: Some(path.to_string()), content: content.to_string(), is_draft: false }
}

fn book(chapters: Vec<Chapter>) -> Book {
    Book { chapters }
}

fn strings(items: &[&str]) -> Vec<String> {
    items.iter().map(|s| s.to_string()).collect()
}

fn content(book: &Book, selected: &[&str]) -> String {
    assemble_content(&strings(selected), book).unwrap().value
}

#[test]
fn one_selected_chapter_gets_two_newlines() {
    let b = book(vec![chapter("ch1.md", "Hello"), chapter("ch2.md", "World")]);
    assert_eq!(content(&b, &["ch1.md"]), "Hello\n\n");
}

#[test]
fn adjacent_chapters_are_joined_by_two_newlines() {
    let b = book(vec![
        chapter("a.md", "# A\ntext"),
        chapter("skipped.md", "never"),
        chapter("b.md", "# B"),
        chapter("c.md", "# C"),
    ]);
    let text = content(&b, &["a.md", "b.md", "c.md"]);
    assert_eq!(text, "# A\ntext\n\n# B\n\n# C\n\n");
    assert!(text.contains("# A\ntext\n\n# B"));
    assert!(text.contains("# B\n\n# C"));
    assert!(!text.contains("never"));
}

#[test]
fn content_is_not_trimmed() {
    let b = book(vec![chapter("a.md", "  lead\n\n\n"), chapter("b.md", "\ttail  ")]);
    assert_eq!(content(&b, &["a.md", "b.md"]), "  lead\n\n\n\n\n\ttail  \n\n");
}

#[test]
fn order_is_the_books_not_the_selections() {
    let b = book(vec![chapter("1.md", "one"), chapter("2.md", "two"), chapter("3.md", "three")]);
    assert_eq!(content(&b, &["3.md", "1.md"]), "one\n\nthree\n\n");
}

#[test]
fn selected_chapter_without_text_still_adds_padding() {
    let b = book(vec![chapter("empty.md", "")]);
    assert_eq!(content(&b, &["empty.md"]), "\n\n");
}

#[test]
fn nothing_selected_is_empty_content() {
    let b = book(vec![chapter("a.md", "A")]);
    assert_eq!(assemble_content(&vec![], &b), Err(DocumentError::EmptyFilteredContent));
    assert_eq!(
        assemble_content(&strings(&["other.md"]), &b),
        Err(DocumentError::EmptyFilteredContent)
    );
    assert_eq!(
        assemble_content(&strings(&["a.md"]), &book(vec![])),
        Err(DocumentError::EmptyFilteredContent)
    );
}

#[test]
fn chapters_without_path_never_contribute() {
    let b = book(vec![
        Chapter { path: None, content: "synthetic".to_string(), is_draft: false },
        chapter("a.md", "A"),
    ]);
    assert_eq!(content(&b, &["a.md", ""]), "A\n\n");
}

#[test]
fn every_chapter_with_a_selected_path_contributes() {
    let b = book(vec![chapter("a.md", "first"), chapter("a.md", "second")]);
    assert_eq!(content(&b, &["a.md"]), "first\n\nsecond\n\n");
}

#[test]
fn contains_path_compares_whole_paths() {
    let paths = strings(&["a.md", "dir/b.md"]);
    assert!(contains_path(&paths, &"a.md".to_string()));
    assert!(contains_path(&paths, &"dir/b.md".to_string()));
    assert!(!contains_path(&paths, &"b.md".to_string()));
    assert!(!contains_path(&paths, &"a.m".to_string()));
    assert!(!contains_path(&vec![], &"a.md".to_string()));
}

#[test]
fn filtered_content_selects_then_assembles() {
    let context = RenderContext {
        root: "/book".to_string(),
        book: book(vec![chapter("ch1.md", "Hello"), chapter("ch2.md", "World")]),
    };
    let doc = Document {
        filename: "out.docx".to_string(),
        includes: Some(strings(&["ch1.md"])),
        ..Document::default()
    };
    assert_eq!(
        doc.get_filtered_content(&context),
        Ok(DocumentContent { value: "Hello\n\n".to_string() })
    );
    let all = Document { includes: None, ..Document::default() };
    assert_eq!(all.get_filtered_content(&context).unwrap().value, "Hello\n\nWorld\n\n");
}

#[test]
fn filtered_content_hands_on_selection_failures() {
    let context = RenderContext {
        root: "/book".to_string(),
        book: book(vec![chapter("ch1.md", "Hello")]),
    };
    let none = Document { includes: Some(strings(&["zzz"])), ..Document::default() };
    assert_eq!(none.get_filtered_content(&context), Err(DocumentError::NoMatchingChapters));
    let bad = Document { includes: Some(strings(&["[z"])), ..Document::default() };
    assert_eq!(
        bad.get_filtered_content(&context),
        Err(DocumentError::PatternCompile("[z".to_string()))
    );
}

#[test]
fn default_content_is_empty() {
    assert_eq!(DocumentContent::default().value, "");
}
