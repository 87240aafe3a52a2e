//! Preparation of the interface description of the graphical front end.
//!
//! The description is an XML text that is kept as a template. Before it is
//! built into the program, its resource paths are brought into the form
//! that the toolkit expects, and the placeholders for the authors and the
//! version are filled in.

use vstd::prelude::*;
use crate::text::{replace_all, replaced};

verus! {

/// Matches the start of a resource path with a single slash: `resource:/`
/// and the lower-case letter after it.
pub const RESOURCE_PATTERN: &'static str = "(?P<r>resource:/)(?P<p>[a-z])";

/// Puts two more slashes between the two parts of a match of
/// [`RESOURCE_PATTERN`].
pub const RESOURCE_REWRITE: &'static str = "$r//$p";

/// Stands in the template where the authors go.
pub const AUTHORS_PLACEHOLDER: &'static str = "{{authors}}";

/// Stands in the template where the version goes.
pub const VERSION_PLACEHOLDER: &'static str = "{{version}}";

/// What comes of compiling `pattern` with `regex::Regex::new` and then
/// replacing every match in `haystack` with `regex::Regex::replace_all`,
/// `replacement` being the replacement text: the new text, or `None` where
/// the pattern does not compile.
pub uninterp spec fn regex_replaced(
    pattern: Seq<char>,
    haystack: Seq<char>,
    replacement: Seq<char>,
) -> Option<Seq<char>>;

/// Compiles `pattern` with `regex::Regex::new` and replaces every match in
/// `haystack` with `regex::Regex::replace_all`; `None` where the pattern
/// does not compile.
///
/// Trusted: the outcome, success included, depends on the three texts and
/// on nothing else. This is claimed of [`RESOURCE_PATTERN`] only. The
/// engine refuses a pattern whose compiled form is larger than a fixed
/// number of bytes, and that form is larger where pointers are wider; so
/// of a pattern near the limit the same texts need not give the same
/// outcome on every machine. `RESOURCE_PATTERN` is nowhere near it.
#[verifier::external_body]
fn regex_replace_all(pattern: &str, haystack: &str, replacement: &str) -> (out: Option<String>)
    requires
        pattern@ == RESOURCE_PATTERN@,
    ensures
        out.deep_view() == regex_replaced(pattern@, haystack@, replacement@),
{
    match regex::Regex::new(pattern) {
        Ok(compiled) => Some(compiled.replace_all(haystack, replacement).into_owned()),
        Err(_) => None,
    }
}

/// The list of authors as it is shown in the interface: one author per
/// line instead of separated by colons, and with angle brackets written as
/// XML entities.
pub open spec fn escaped_authors(authors: Seq<char>) -> Seq<char> {
    replaced(replaced(replaced(authors, ":"@, "\n"@), "<"@, "&lt;"@), ">"@, "&gt;"@)
}

/// `xml` with the authors placeholder replaced by the escaped authors, and
/// then the version placeholder by the version.
pub open spec fn filled(xml: Seq<char>, authors: Seq<char>, version: Seq<char>) -> Seq<char> {
    replaced(
        replaced(xml, AUTHORS_PLACEHOLDER@, escaped_authors(authors)),
        VERSION_PLACEHOLDER@,
        version,
    )
}

/// Brings a colon-separated list of authors into the form in which the
/// interface shows it.
pub fn escape_authors(authors: &str) -> (out: String)
    ensures
        out@ == escaped_authors(authors@),
{
    let lines = replace_all(authors, ":", "\n");
    let opened = replace_all(lines.as_str(), "<", "&lt;");
    replace_all(opened.as_str(), ">", "&gt;")
}

/// Fills the authors and the version into `xml`.
pub fn fill_placeholders(xml: &str, authors: &str, version: &str) -> (out: String)
    ensures
        out@ == filled(xml@, authors@, version@),
{
    let shown = escape_authors(authors);
    let with_authors = replace_all(xml, AUTHORS_PLACEHOLDER, shown.as_str());
    replace_all(with_authors.as_str(), VERSION_PLACEHOLDER, version)
}

/// Prepares the interface description `glade_xml`: rewrites its resource
/// paths, then fills in `authors`, a colon-separated list, and `version`.
///
/// The result is `None` where the regular-expression engine refuses
/// [`RESOURCE_PATTERN`].
pub fn fix_resource_paths(glade_xml: &str, authors: &str, version: &str) -> (out: Option<String>)
    ensures
        out.deep_view() == finished(
            regex_replaced(RESOURCE_PATTERN@, glade_xml@, RESOURCE_REWRITE@),
            authors@,
            version@,
        ),
{
    let rewritten = regex_replace_all(RESOURCE_PATTERN, glade_xml, RESOURCE_REWRITE);
    finish_description(rewritten, authors, version)
}

/// What becomes of a description whose resource paths were to be rewritten:
/// nothing where the rewrite gave nothing, else the rewritten text with
/// the authors and the version filled in.
pub open spec fn finished(
    rewritten: Option<Seq<char>>,
    authors: Seq<char>,
    version: Seq<char>,
) -> Option<Seq<char>> {
    match rewritten {
        Some(xml) => Some(filled(xml, authors, version)),
        None => None,
    }
}

/// Completes the preparation of a description once the rewrite of its
/// resource paths has been tried. `rewritten` is what the rewrite gave:
/// the new text, or `None` where the regular-expression engine refused the
/// pattern. A refusal is passed on; a text gets `authors` and `version`
/// filled in.
pub fn finish_description(rewritten: Option<String>, authors: &str, version: &str) -> (out: Option<
    String,
>)
    ensures
        out.deep_view() == finished(rewritten.deep_view(), authors@, version@),
{
    match rewritten {
        Some(xml) => Some(fill_placeholders(xml.as_str(), authors, version)),
        None => None,
    }
}

} // verus!
