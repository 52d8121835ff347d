//! Language names from the Magika content classifier.

use vstd::prelude::*;
use crate::content_type::{content_type_to_language_name, language_name_of, ContentKind};

verus! {

#[verifier::external_type_specification]
#[verifier::external_body]
pub struct ExSession(magika::Session);

#[verifier::external_type_specification]
#[verifier::external_body]
pub struct ExContentType(magika::ContentType);

/// Classifies `text` (`magika::Session::identify_content_sync`, then
/// `FileType::content_type`): `None` when the classification fails or names
/// no content type. The outcome rests on a neural model run on the machine's
/// floating-point hardware, so nothing is stated of which type comes out.
#[verifier::external_body]
fn identify_content_type(session: &mut magika::Session, text: &[u8]) -> (found: Option<
    magika::ContentType,
>) {
    session.identify_content_sync(text).ok()?.content_type()
}

/// The label that Magika gives a content type (`ContentType::info`, field
/// `label`), as an owned string. Magika gives each content type its own
/// label; which label a type has is Magika's table, so nothing is stated.
#[verifier::external_body]
fn content_label(content_type: magika::ContentType) -> (label: String) {
    content_type.info().label.to_owned()
}

/// The content kind that a Magika label stands for: the kind of the content
/// types that have an editor language, `Other` for every other label.
pub open spec fn kind_for_label(label: Seq<char>) -> ContentKind {
    if label == "c"@ {
        ContentKind::C
    } else if label == "cpp"@ {
        ContentKind::Cpp
    } else if label == "css"@ {
        ContentKind::Css
    } else if label == "diff"@ {
        ContentKind::Diff
    } else if label == "go"@ {
        ContentKind::Go
    } else if label == "html"@ {
        ContentKind::Html
    } else if label == "javascript"@ {
        ContentKind::Javascript
    } else if label == "json"@ {
        ContentKind::Json
    } else if label == "markdown"@ {
        ContentKind::Markdown
    } else if label == "python"@ {
        ContentKind::Python
    } else if label == "ruby"@ {
        ContentKind::Ruby
    } else if label == "rust"@ {
        ContentKind::Rust
    } else if label == "shell"@ {
        ContentKind::Shell
    } else if label == "sql"@ {
        ContentKind::Sql
    } else if label == "swift"@ {
        ContentKind::Swift
    } else if label == "toml"@ {
        ContentKind::Toml
    } else if label == "typescript"@ {
        ContentKind::Typescript
    } else if label == "xml"@ {
        ContentKind::Xml
    } else if label == "yaml"@ {
        ContentKind::Yaml
    } else {
        ContentKind::Other
    }
}

/// Each content kind with an editor language comes from exactly one Magika
/// label, its own: a label yields such a kind only when it is that kind's
/// label, each of the listed labels yields its kind, and every other label
/// yields `Other`.
pub proof fn lemma_each_kind_from_its_own_label(label: Seq<char>)
    ensures
        kind_for_label(label) == ContentKind::C ==> label == "c"@,
        kind_for_label(label) == ContentKind::Cpp ==> label == "cpp"@,
        kind_for_label(label) == ContentKind::Css ==> label == "css"@,
        kind_for_label(label) == ContentKind::Diff ==> label == "diff"@,
        kind_for_label(label) == ContentKind::Go ==> label == "go"@,
        kind_for_label(label) == ContentKind::Html ==> label == "html"@,
        kind_for_label(label) == ContentKind::Javascript ==> label == "javascript"@,
        kind_for_label(label) == ContentKind::Json ==> label == "json"@,
        kind_for_label(label) == ContentKind::Markdown ==> label == "markdown"@,
        kind_for_label(label) == ContentKind::Python ==> label == "python"@,
        kind_for_label(label) == ContentKind::Ruby ==> label == "ruby"@,
        kind_for_label(label) == ContentKind::Rust ==> label == "rust"@,
        kind_for_label(label) == ContentKind::Shell ==> label == "shell"@,
        kind_for_label(label) == ContentKind::Sql ==> label == "sql"@,
        kind_for_label(label) == ContentKind::Swift ==> label == "swift"@,
        kind_for_label(label) == ContentKind::Toml ==> label == "toml"@,
        kind_for_label(label) == ContentKind::Typescript ==> label == "typescript"@,
        kind_for_label(label) == ContentKind::Xml ==> label == "xml"@,
        kind_for_label(label) == ContentKind::Yaml ==> label == "yaml"@,
        kind_for_label("c"@) == ContentKind::C,
        kind_for_label("cpp"@) == ContentKind::Cpp,
        kind_for_label("css"@) == ContentKind::Css,
        kind_for_label("diff"@) == ContentKind::Diff,
        kind_for_label("go"@) == ContentKind::Go,
        kind_for_label("html"@) == ContentKind::Html,
        kind_for_label("javascript"@) == ContentKind::Javascript,
        kind_for_label("json"@) == ContentKind::Json,
        kind_for_label("markdown"@) == ContentKind::Markdown,
        kind_for_label("python"@) == ContentKind::Python,
        kind_for_label("ruby"@) == ContentKind::Ruby,
        kind_for_label("rust"@) == ContentKind::Rust,
        kind_for_label("shell"@) == ContentKind::Shell,
        kind_for_label("sql"@) == ContentKind::Sql,
        kind_for_label("swift"@) == ContentKind::Swift,
        kind_for_label("toml"@) == ContentKind::Toml,
        kind_for_label("typescript"@) == ContentKind::Typescript,
        kind_for_label("xml"@) == ContentKind::Xml,
        kind_for_label("yaml"@) == ContentKind::Yaml,
        (label != "c"@ && label != "cpp"@ && label != "css"@ && label != "diff"@ && label != "go"@ && label != "html"@ && label != "javascript"@ && label != "json"@ && label != "markdown"@ && label != "python"@ && label != "ruby"@ && label != "rust"@ && label != "shell"@ && label != "sql"@ && label != "swift"@ && label != "toml"@ && label != "typescript"@ && label != "xml"@ && label != "yaml"@) ==> kind_for_label(label) == ContentKind::Other,
{
    reveal_strlit("c");
    reveal_strlit("cpp");
    reveal_strlit("css");
    reveal_strlit("diff");
    reveal_strlit("go");
    reveal_strlit("html");
    reveal_strlit("javascript");
    reveal_strlit("json");
    reveal_strlit("markdown");
    reveal_strlit("python");
    reveal_strlit("ruby");
    reveal_strlit("rust");
    reveal_strlit("shell");
    reveal_strlit("sql");
    reveal_strlit("swift");
    reveal_strlit("toml");
    reveal_strlit("typescript");
    reveal_strlit("xml");
    reveal_strlit("yaml");
    assert("c"@.len() != "cpp"@.len());
    assert("c"@.len() != "css"@.len());
    assert("cpp"@[1] != "css"@[1]);
    assert("c"@.len() != "diff"@.len());
    assert("cpp"@.len() != "diff"@.len());
    assert("css"@.len() != "diff"@.len());
    assert("c"@.len() != "go"@.len());
    assert("cpp"@.len() != "go"@.len());
    assert("css"@.len() != "go"@.len());
    assert("diff"@.len() != "go"@.len());
    assert("c"@.len() != "html"@.len());
    assert("cpp"@.len() != "html"@.len());
    assert("css"@.len() != "html"@.len());
    assert("diff"@[0] != "html"@[0]);
    assert("go"@.len() != "html"@.len());
    assert("c"@.len() != "javascript"@.len());
    assert("cpp"@.len() != "javascript"@.len());
    assert("css"@.len() != "javascript"@.len());
    assert("diff"@.len() != "javascript"@.len());
    assert("go"@.len() != "javascript"@.len());
    assert("html"@.len() != "javascript"@.len());
    assert("c"@.len() != "json"@.len());
    assert("cpp"@.len() != "json"@.len());
    assert("css"@.len() != "json"@.len());
    assert("diff"@[0] != "json"@[0]);
    assert("go"@.len() != "json"@.len());
    assert("html"@[0] != "json"@[0]);
    assert("javascript"@.len() != "json"@.len());
    assert("c"@.len() != "markdown"@.len());
    assert("cpp"@.len() != "markdown"@.len());
    assert("css"@.len() != "markdown"@.len());
    assert("diff"@.len() != "markdown"@.len());
    assert("go"@.len() != "markdown"@.len());
    assert("html"@.len() != "markdown"@.len());
    assert("javascript"@.len() != "markdown"@.len());
    assert("json"@.len() != "markdown"@.len());
    assert("c"@.len() != "python"@.len());
    assert("cpp"@.len() != "python"@.len());
    assert("css"@.len() != "python"@.len());
    assert("diff"@.len() != "python"@.len());
    assert("go"@.len() != "python"@.len());
    assert("html"@.len() != "python"@.len());
    assert("javascript"@.len() != "python"@.len());
    assert("json"@.len() != "python"@.len());
    assert("markdown"@.len() != "python"@.len());
    assert("c"@.len() != "ruby"@.len());
    assert("cpp"@.len() != "ruby"@.len());
    assert("css"@.len() != "ruby"@.len());
    assert("diff"@[0] != "ruby"@[0]);
    assert("go"@.len() != "ruby"@.len());
    assert("html"@[0] != "ruby"@[0]);
    assert("javascript"@.len() != "ruby"@.len());
    assert("json"@[0] != "ruby"@[0]);
    assert("markdown"@.len() != "ruby"@.len());
    assert("python"@.len() != "ruby"@.len());
    assert("c"@.len() != "rust"@.len());
    assert("cpp"@.len() != "rust"@.len());
    assert("css"@.len() != "rust"@.len());
    assert("diff"@[0] != "rust"@[0]);
    assert("go"@.len() != "rust"@.len());
    assert("html"@[0] != "rust"@[0]);
    assert("javascript"@.len() != "rust"@.len());
    assert("json"@[0] != "rust"@[0]);
    assert("markdown"@.len() != "rust"@.len());
    assert("python"@.len() != "rust"@.len());
    assert("ruby"@[2] != "rust"@[2]);
    assert("c"@.len() != "shell"@.len());
    assert("cpp"@.len() != "shell"@.len());
    assert("css"@.len() != "shell"@.len());
    assert("diff"@.len() != "shell"@.len());
    assert("go"@.len() != "shell"@.len());
    assert("html"@.len() != "shell"@.len());
    assert("javascript"@.len() != "shell"@.len());
    assert("json"@.len() != "shell"@.len());
    assert("markdown"@.len() != "shell"@.len());
    assert("python"@.len() != "shell"@.len());
    assert("ruby"@.len() != "shell"@.len());
    assert("rust"@.len() != "shell"@.len());
    assert("c"@.len() != "sql"@.len());
    assert("cpp"@[0] != "sql"@[0]);
    assert("css"@[0] != "sql"@[0]);
    assert("diff"@.len() != "sql"@.len());
    assert("go"@.len() != "sql"@.len());
    assert("html"@.len() != "sql"@.len());
    assert("javascript"@.len() != "sql"@.len());
    assert("json"@.len() != "sql"@.len());
    assert("markdown"@.len() != "sql"@.len());
    assert("python"@.len() != "sql"@.len());
    assert("ruby"@.len() != "sql"@.len());
    assert("rust"@.len() != "sql"@.len());
    assert("shell"@.len() != "sql"@.len());
    assert("c"@.len() != "swift"@.len());
    assert("cpp"@.len() != "swift"@.len());
    assert("css"@.len() != "swift"@.len());
    assert("diff"@.len() != "swift"@.len());
    assert("go"@.len() != "swift"@.len());
    assert("html"@.len() != "swift"@.len());
    assert("javascript"@.len() != "swift"@.len());
    assert("json"@.len() != "swift"@.len());
    assert("markdown"@.len() != "swift"@.len());
    assert("python"@.len() != "swift"@.len());
    assert("ruby"@.len() != "swift"@.len());
    assert("rust"@.len() != "swift"@.len());
    assert("shell"@[1] != "swift"@[1]);
    assert("sql"@.len() != "swift"@.len());
    assert("c"@.len() != "toml"@.len());
    assert("cpp"@.len() != "toml"@.len());
    assert("css"@.len() != "toml"@.len());
    assert("diff"@[0] != "toml"@[0]);
    assert("go"@.len() != "toml"@.len());
    assert("html"@[0] != "toml"@[0]);
    assert("javascript"@.len() != "toml"@.len());
    assert("json"@[0] != "toml"@[0]);
    assert("markdown"@.len() != "toml"@.len());
    assert("python"@.len() != "toml"@.len());
    assert("ruby"@[0] != "toml"@[0]);
    assert("rust"@[0] != "toml"@[0]);
    assert("shell"@.len() != "toml"@.len());
    assert("sql"@.len() != "toml"@.len());
    assert("swift"@.len() != "toml"@.len());
    assert("c"@.len() != "typescript"@.len());
    assert("cpp"@.len() != "typescript"@.len());
    assert("css"@.len() != "typescript"@.len());
    assert("diff"@.len() != "typescript"@.len());
    assert("go"@.len() != "typescript"@.len());
    assert("html"@.len() != "typescript"@.len());
    assert("javascript"@[0] != "typescript"@[0]);
    assert("json"@.len() != "typescript"@.len());
    assert("markdown"@.len() != "typescript"@.len());
    assert("python"@.len() != "typescript"@.len());
    assert("ruby"@.len() != "typescript"@.len());
    assert("rust"@.len() != "typescript"@.len());
    assert("shell"@.len() != "typescript"@.len());
    assert("sql"@.len() != "typescript"@.len());
    assert("swift"@.len() != "typescript"@.len());
    assert("toml"@.len() != "typescript"@.len());
    assert("c"@.len() != "xml"@.len());
    assert("cpp"@[0] != "xml"@[0]);
    assert("css"@[0] != "xml"@[0]);
    assert("diff"@.len() != "xml"@.len());
    assert("go"@.len() != "xml"@.len());
    assert("html"@.len() != "xml"@.len());
    assert("javascript"@.len() != "xml"@.len());
    assert("json"@.len() != "xml"@.len());
    assert("markdown"@.len() != "xml"@.len());
    assert("python"@.len() != "xml"@.len());
    assert("ruby"@.len() != "xml"@.len());
    assert("rust"@.len() != "xml"@.len());
    assert("shell"@.len() != "xml"@.len());
    assert("sql"@[0] != "xml"@[0]);
    assert("swift"@.len() != "xml"@.len());
    assert("toml"@.len() != "xml"@.len());
    assert("typescript"@.len() != "xml"@.len());
    assert("c"@.len() != "yaml"@.len());
    assert("cpp"@.len() != "yaml"@.len());
    assert("css"@.len() != "yaml"@.len());
    assert("diff"@[0] != "yaml"@[0]);
    assert("go"@.len() != "yaml"@.len());
    assert("html"@[0] != "yaml"@[0]);
    assert("javascript"@.len() != "yaml"@.len());
    assert("json"@[0] != "yaml"@[0]);
    assert("markdown"@.len() != "yaml"@.len());
    assert("python"@.len() != "yaml"@.len());
    assert("ruby"@[0] != "yaml"@[0]);
    assert("rust"@[0] != "yaml"@[0]);
    assert("shell"@.len() != "yaml"@.len());
    assert("sql"@.len() != "yaml"@.len());
    assert("swift"@.len() != "yaml"@.len());
    assert("toml"@[0] != "yaml"@[0]);
    assert("typescript"@.len() != "yaml"@.len());
    assert("xml"@.len() != "yaml"@.len());
}

/// The editor language name for what the classifier found, if anything.
pub open spec fn language_name_for(found: Option<Seq<char>>) -> Option<Seq<char>> {
    match found {
        None => None,
        Some(label) => language_name_of(kind_for_label(label)),
    }
}

/// `label` reads exactly `expected`.
fn label_is(label: &String, expected: &str) -> (same: bool)
    ensures
        same == (label@ == expected@),
{
    let expected: String = String::from_str(expected);
    label.eq(&expected)
}

/// The content kind that a Magika label stands for.
pub fn content_kind_for_label(label: &String) -> (kind: ContentKind)
    ensures
        kind == kind_for_label(label@),
{
    if label_is(label, "c") {
        ContentKind::C
    } else if label_is(label, "cpp") {
        ContentKind::Cpp
    } else if label_is(label, "css") {
        ContentKind::Css
    } else if label_is(label, "diff") {
        ContentKind::Diff
    } else if label_is(label, "go") {
        ContentKind::Go
    } else if label_is(label, "html") {
        ContentKind::Html
    } else if label_is(label, "javascript") {
        ContentKind::Javascript
    } else if label_is(label, "json") {
        ContentKind::Json
    } else if label_is(label, "markdown") {
        ContentKind::Markdown
    } else if label_is(label, "python") {
        ContentKind::Python
    } else if label_is(label, "ruby") {
        ContentKind::Ruby
    } else if label_is(label, "rust") {
        ContentKind::Rust
    } else if label_is(label, "shell") {
        ContentKind::Shell
    } else if label_is(label, "sql") {
        ContentKind::Sql
    } else if label_is(label, "swift") {
        ContentKind::Swift
    } else if label_is(label, "toml") {
        ContentKind::Toml
    } else if label_is(label, "typescript") {
        ContentKind::Typescript
    } else if label_is(label, "xml") {
        ContentKind::Xml
    } else if label_is(label, "yaml") {
        ContentKind::Yaml
    } else {
        ContentKind::Other
    }
}

/// The editor language name for the label of the content type that the
/// classifier found: `None` when it found none, or found one without an
/// editor language.
pub fn language_name_for_found(found: &Option<String>) -> (name: Option<&'static str>)
    ensures
        match name {
            Some(s) => language_name_for(
                match found {
                    Some(l) => Some(l@),
                    None => None,
                },
            ) == Some(s@),
            None => language_name_for(
                match found {
                    Some(l) => Some(l@),
                    None => None,
                },
            ) is None,
        },
{
    match found {
        None => None,
        Some(label) => content_type_to_language_name(content_kind_for_label(label)),
    }
}

/// A content classifier that names the editor language of a text.
pub struct MagikaDetector {
    pub session: magika::Session,
}

impl MagikaDetector {
    /// The editor language of `text` as the classifier sees it: `None` when
    /// the classification fails, names no content type, or names one without
    /// an editor language; otherwise the language name for that content
    /// type's label (see `language_name_for_found`).
    pub fn detect_language_name(&mut self, text: &[u8]) -> (name: Option<&'static str>)
        ensures
            match name {
                Some(s) => exists|label: Seq<char>| language_name_for(Some(label)) == Some(s@),
                None => true,
            },
    {
        let found: Option<String> = match identify_content_type(&mut self.session, text) {
            Some(content_type) => Some(content_label(content_type)),
            None => None,
        };
        let name: Option<&'static str> = language_name_for_found(&found);
        proof {
            if name is Some {
                let l: Seq<char> = found->Some_0@;
                assert(language_name_for(Some(l)) == Some(name->Some_0@));
            }
        }
        name
    }
}

} // verus!
