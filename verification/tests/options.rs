use mdbook_docx::book::{Book, RenderContext};
use mdbook_docx::document::{Document, DocumentContent};
use mdbook_docx::pandoc::{build_options, ConversionOption, MarkdownExtension, PandocConfig};
use mdbook_docx::path::ResolvedPaths;

fn context(root: &str) -> RenderContext {
    RenderContext { root: root.to_string(), book: Book { chapters: vec![] } }
}

fn strings(items: &[&str]) -> Vec<String> {
    items.iter().map(|s| s.to_string()).collect()
}

fn full_document() -> Document {
    Document {
        filename: "out.docx".to_string(),
        template: Some("styles/ref.docx".to_string()),
        includes: Some(strings(&["*"])),
        offset_headings_by: Some(-1),
        append: Some(strings(&["back/a.docx", "back/b.docx"])),
        prepend: Some(strings(&["front/cover.docx", "front/toc.docx"])),
    }
}

#[test]
fn default_config_reads_with_the_standing_extensions() {
    let config = PandocConfig::default();
    assert_eq!(
        config.input_extensions,
        vec![
            MarkdownExtension::PipeTables,
            MarkdownExtension::RawHtml,
            MarkdownExtension::AutolinkBareUris,
            MarkdownExtension::AutoIdentifiers,
            MarkdownExtension::HardLineBreaks,
            MarkdownExtension::BlankBeforeHeader,
            MarkdownExtension::TableCaptions,
            MarkdownExtension::PandocTitleBlock,
            MarkdownExtension::YamlMetadataBlock,
            MarkdownExtension::ImplicitHeaderReferences,
        ]
    );
    assert!(config.output_extensions.is_empty());
    assert!(config.options.is_empty());
    assert_eq!(config.content, DocumentContent { value: String::new() });
}

#[test]
fn bare_document_gets_the_standing_options() {
    let doc = Document {
        filename: "out.docx".to_string(),
        template: None,
        includes: None,
        offset_headings_by: None,
        append: None,
        prepend: None,
    };
    let mut config = PandocConfig::default();
    config.assign_options(&context("/book"), &doc);
    assert_eq!(
        config.options,
        vec![
            ConversionOption::DataDir("/book".to_string()),
            ConversionOption::ResourcePath(vec!["/book/src".to_string()]),
            ConversionOption::AtxHeaders,
            ConversionOption::ReferenceLinks,
        ]
    );
}

#[test]
fn every_field_of_the_document_becomes_an_option() {
    let mut config = PandocConfig::default();
    config.assign_options(&context("/book"), &full_document());
    assert_eq!(
        config.options,
        vec![
            ConversionOption::DataDir("/book".to_string()),
            ConversionOption::ResourcePath(vec!["/book/src".to_string()]),
            ConversionOption::AtxHeaders,
            ConversionOption::ReferenceLinks,
            ConversionOption::ShiftHeadingLevelBy(-1),
            ConversionOption::ReferenceDoc("/book/styles/ref.docx".to_string()),
            ConversionOption::IncludeBeforeBody("/book/front/cover.docx".to_string()),
            ConversionOption::IncludeBeforeBody("/book/front/toc.docx".to_string()),
            ConversionOption::IncludeAfterBody("/book/back/a.docx".to_string()),
            ConversionOption::IncludeAfterBody("/book/back/b.docx".to_string()),
        ]
    );
}

#[test]
fn default_document_names_the_default_template() {
    let mut config = PandocConfig::default();
    config.assign_options(&context("/srv/my book"), &Document::default());
    assert_eq!(
        config.options,
        vec![
            ConversionOption::DataDir("/srv/my book".to_string()),
            ConversionOption::ResourcePath(vec!["/srv/my book/src".to_string()]),
            ConversionOption::AtxHeaders,
            ConversionOption::ReferenceLinks,
            ConversionOption::ReferenceDoc("/srv/my book/reference.docx".to_string()),
        ]
    );
}

#[test]
fn heading_shift_is_not_validated() {
    for shift in [i32::MIN, -7, 0, 1, 99, i32::MAX] {
        let doc = Document {
            template: None,
            offset_headings_by: Some(shift),
            ..Document::default()
        };
        let mut config = PandocConfig::default();
        config.assign_options(&context("/b"), &doc);
        assert_eq!(config.options.len(), 5);
        assert_eq!(config.options[4], ConversionOption::ShiftHeadingLevelBy(shift));
    }
}

#[test]
fn assigning_twice_gives_the_same_options() {
    let context = context("/book");
    let doc = full_document();
    let mut first = PandocConfig::default();
    first.assign_options(&context, &doc);
    let mut second = PandocConfig::default();
    second.assign_options(&context, &doc);
    assert_eq!(first.options, second.options);
    assert_eq!(format!("{:?}", first.options), format!("{:?}", second.options));
    let once = first.options.clone();
    first.assign_options(&context, &doc);
    assert_eq!(first.options, once);
}

#[test]
fn assigning_replaces_earlier_options_and_keeps_the_rest() {
    let context = context("/book");
    let mut config = PandocConfig {
        input_extensions: vec![MarkdownExtension::RawHtml],
        output_extensions: vec![MarkdownExtension::PipeTables],
        options: vec![ConversionOption::ReferenceDoc("old".to_string())],
        content: DocumentContent { value: "kept".to_string() },
    };
    let returned = config.assign_options(&context, &full_document()).clone();
    assert_eq!(returned, config);
    assert_eq!(config.input_extensions, vec![MarkdownExtension::RawHtml]);
    assert_eq!(config.output_extensions, vec![MarkdownExtension::PipeTables]);
    assert_eq!(config.content.value, "kept");
    assert_eq!(config.options.len(), 10);
    assert_eq!(config.options[0], ConversionOption::DataDir("/book".to_string()));
}

#[test]
fn empty_lists_add_no_option() {
    let doc = Document {
        template: None,
        append: Some(vec![]),
        prepend: Some(vec![]),
        ..Document::default()
    };
    let mut config = PandocConfig::default();
    config.assign_options(&context("/book"), &doc);
    assert_eq!(config.options.len(), 4);
}

#[test]
fn absolute_paths_replace_the_root() {
    let doc = Document {
        template: Some("/etc/ref.docx".to_string()),
        prepend: Some(strings(&["/abs/front.docx"])),
        ..Document::default()
    };
    let paths = doc.resolve_paths(&"/book".to_string());
    assert_eq!(paths.template, Some("/etc/ref.docx".to_string()));
    assert_eq!(paths.prepend, strings(&["/abs/front.docx"]));
}

#[test]
fn paths_resolve_against_the_root() {
    let paths = full_document().resolve_paths(&"/book".to_string());
    assert_eq!(
        paths,
        ResolvedPaths {
            sources: "/book/src".to_string(),
            template: Some("/book/styles/ref.docx".to_string()),
            prepend: strings(&["/book/front/cover.docx", "/book/front/toc.docx"]),
            append: strings(&["/book/back/a.docx", "/book/back/b.docx"]),
            primary_output: "/book/book/docx/out.docx".to_string(),
        }
    );
}

#[test]
fn root_with_trailing_separator_gets_no_second_one() {
    let doc = Document { template: None, ..Document::default() };
    let paths = doc.resolve_paths(&"/book/".to_string());
    assert_eq!(paths.sources, "/book/src");
    assert_eq!(paths.primary_output, "/book/book/docx/output.docx");
    let relative = doc.resolve_paths(&"".to_string());
    assert_eq!(relative.sources, "src");
}

#[test]
fn options_are_built_from_resolved_paths_as_given() {
    let paths = ResolvedPaths {
        sources: "S".to_string(),
        template: Some("T".to_string()),
        prepend: strings(&["before-a", "before-b"]),
        append: strings(&["after-a"]),
        primary_output: "unused".to_string(),
    };
    assert_eq!(
        build_options(&"R".to_string(), Some(3), &paths),
        vec![
            ConversionOption::DataDir("R".to_string()),
            ConversionOption::ResourcePath(vec!["S".to_string()]),
            ConversionOption::AtxHeaders,
            ConversionOption::ReferenceLinks,
            ConversionOption::ShiftHeadingLevelBy(3),
            ConversionOption::ReferenceDoc("T".to_string()),
            ConversionOption::IncludeBeforeBody("before-a".to_string()),
            ConversionOption::IncludeBeforeBody("before-b".to_string()),
            ConversionOption::IncludeAfterBody("after-a".to_string()),
        ]
    );
    let bare = ResolvedPaths {
        sources: "S".to_string(),
        template: None,
        prepend: vec![],
        append: vec![],
        primary_output: String::new(),
    };
    assert_eq!(build_options(&"R".to_string(), None, &bare).len(), 4);
}
