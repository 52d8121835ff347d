//! The editor language names of the content types that a content classifier
//! reports.

use vstd::prelude::*;

verus! {

/// The content types that have an editor language, and `Other` for the
/// rest.
#[derive(Clone, Copy, PartialEq, Eq, Structural, Debug)]
pub enum ContentKind {
    C,
    Cpp,
    Css,
    Diff,
    Go,
    Html,
    Javascript,
    Json,
    Markdown,
    Python,
    Ruby,
    Rust,
    Shell,
    Sql,
    Swift,
    Toml,
    Typescript,
    Xml,
    Yaml,
    Other,
}

/// The name of the editor language for a content type, if it has one.
pub open spec fn language_name_of(kind: ContentKind) -> Option<Seq<char>> {
    match kind {
        ContentKind::C => Some("C"@),
        ContentKind::Cpp => Some("C++"@),
        ContentKind::Css => Some("CSS"@),
        ContentKind::Diff => Some("Diff"@),
        ContentKind::Go => Some("Go"@),
        ContentKind::Html => Some("HTML"@),
        ContentKind::Javascript => Some("JavaScript"@),
        ContentKind::Json => Some("JSON"@),
        ContentKind::Markdown => Some("Markdown"@),
        ContentKind::Python => Some("Python"@),
        ContentKind::Ruby => Some("Ruby"@),
        ContentKind::Rust => Some("Rust"@),
        ContentKind::Shell => Some("Shell Script"@),
        ContentKind::Sql => Some("SQL"@),
        ContentKind::Swift => Some("Swift"@),
        ContentKind::Toml => Some("TOML"@),
        ContentKind::Typescript => Some("TypeScript"@),
        ContentKind::Xml => Some("XML"@),
        ContentKind::Yaml => Some("YAML"@),
        ContentKind::Other => None,
    }
}

/// The name of the editor language for a content type; `None` for a content
/// type without one.
pub fn content_type_to_language_name(kind: ContentKind) -> (name: Option<&'static str>)
    ensures
        match name {
            Some(s) => language_name_of(kind) == Some(s@),
            None => language_name_of(kind) is None,
        },
{
    match kind {
        ContentKind::C => Some("C"),
        ContentKind::Cpp => Some("C++"),
        ContentKind::Css => Some("CSS"),
        ContentKind::Diff => Some("Diff"),
        ContentKind::Go => Some("Go"),
        ContentKind::Html => Some("HTML"),
        ContentKind::Javascript => Some("JavaScript"),
        ContentKind::Json => Some("JSON"),
        ContentKind::Markdown => Some("Markdown"),
        ContentKind::Python => Some("Python"),
        ContentKind::Ruby => Some("Ruby"),
        ContentKind::Rust => Some("Rust"),
        ContentKind::Shell => Some("Shell Script"),
        ContentKind::Sql => Some("SQL"),
        ContentKind::Swift => Some("Swift"),
        ContentKind::Toml => Some("TOML"),
        ContentKind::Typescript => Some("TypeScript"),
        ContentKind::Xml => Some("XML"),
        ContentKind::Yaml => Some("YAML"),
        ContentKind::Other => None,
    }
}

} // verus!
