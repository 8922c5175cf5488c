//! Text styles and the sections of a document that are set in them.

use crate::pattern::wildcard;
use vstd::prelude::*;

verus! {

/// How text is set: a font, a size and a colour, under a name.
#[derive(Clone, Debug, PartialEq, Eq)]
pub struct Style {
    /// The name by which sections refer to the style.
    pub alias: String,
    /// The font family.
    pub font: String,
    /// The font size, in points.
    pub size: u64,
    /// The font colour, as `#rrggbb`.
    pub color: String,
}

/// The mathematical value of a [`Style`].
pub ghost struct StyleView {
    pub alias: Seq<char>,
    pub font: Seq<char>,
    pub size: u64,
    pub color: Seq<char>,
}

impl View for Style {
    type V = StyleView;

    open spec fn view(&self) -> StyleView {
        StyleView { alias: self.alias@, font: self.font@, size: self.size, color: self.color@ }
    }
}

impl DeepView for Style {
    type V = StyleView;

    open spec fn deep_view(&self) -> StyleView {
        self@
    }
}

/// The style of text that names none: black 12 point sans-serif.
pub open spec fn default_style() -> StyleView {
    StyleView { alias: "default"@, font: "sans-serif"@, size: 12, color: "#000000"@ }
}

impl Style {
    /// The style of text that names none.
    pub fn default_new() -> (style: Style)
        ensures
            style@ == default_style(),
    {
        Style {
            alias: Style::default_alias(),
            font: Style::default_font(),
            size: Style::default_size(),
            color: Style::default_color(),
        }
    }

    /// The name of the default style.
    pub fn default_alias() -> (alias: String)
        ensures
            alias@ == "default"@,
    {
        "default".to_owned()
    }

    /// The font of a style that names none.
    pub fn default_font() -> (font: String)
        ensures
            font@ == "sans-serif"@,
    {
        "sans-serif".to_owned()
    }

    /// The size of a style that names none.
    pub fn default_size() -> (size: u64)
        ensures
            size == 12,
    {
        12
    }

    /// The colour of a style that names none.
    pub fn default_color() -> (color: String)
        ensures
            color@ == "#000000"@,
    {
        "#000000".to_owned()
    }
}

/// The styles of a book: one for text that names none, and those that
/// sections can name.
#[derive(Clone, Debug, PartialEq, Eq)]
pub struct Styles {
    /// The style of text that names none.
    pub default: Style,
    /// The styles that sections refer to by alias.
    pub styles: Vec<Style>,
}

impl Styles {
    /// The named styles of a book that defines none: an empty list.
    pub fn empty_styles() -> (styles: Vec<Style>)
        ensures
            styles@ == Seq::<Style>::empty(),
            styles.deep_view() == Seq::<StyleView>::empty(),
    {
        let styles: Vec<Style> = Vec::new();
        styles
    }
}

/// A part of a document that is set in a style of its own.
#[derive(Clone, Debug, PartialEq, Eq)]
pub struct SectionConfig {
    /// Alias of the style.
    pub style: String,
    /// Glob patterns for the chapters that make up the section.
    pub includes: Vec<String>,
}

/// A document made of sections.
#[derive(Clone, Debug, PartialEq, Eq)]
pub struct DocumentConfig {
    /// Name of the file to write.
    pub filename: String,
    /// Glob patterns for the chapters of the document.
    pub includes: Vec<String>,
    /// The sections that are set in a style other than the default.
    pub sections: Vec<SectionConfig>,
}

impl DocumentConfig {
    /// The patterns of a document that names none: the wildcard, which
    /// matches every chapter.
    pub fn default_includes() -> (includes: Vec<String>)
        ensures
            includes.deep_view() == seq![wildcard()],
    {
        let mut includes: Vec<String> = Vec::new();
        includes.push("*".to_owned());
        proof {
            reveal_strlit("*");
            assert("*"@ =~= wildcard());
        }
        includes
    }

    /// The sections of a document that names none.
    pub fn default_sections() -> (sections: Vec<SectionConfig>)
        ensures
            sections@.len() == 0,
    {
        Vec::new()
    }
}

} // verus!
