//! The renderer: Markdown text in, an HTML fragment out.

use pulldown_cmark::{html, Options, Parser};
use vstd::prelude::*;

verus! {

/// The HTML fragment that `pulldown_cmark::html::push_html` appends to an
/// empty string for the events of `pulldown_cmark::Parser::new_ext` on `text`,
/// with `ENABLE_STRIKETHROUGH` set as `strikethrough` says and every other
/// option off.
pub uninterp spec fn markdown_html(text: Seq<char>, strikethrough: bool) -> Seq<char>;

/// What [`render`] returns for `text`: CommonMark with the strikethrough
/// extension, and no other.
pub open spec fn rendered(text: Seq<char>) -> Seq<char> {
    markdown_html(text, true)
}

/// Runs `pulldown_cmark::Parser::new_ext` on `text` and feeds its events to
/// `pulldown_cmark::html::push_html`, which writes into a fresh string.
///
/// Not proved: that the string is [`markdown_html`] of the two arguments, which
/// claims only that the parser and the HTML writer compute a function of the
/// text and the options.
#[verifier::external_body]
fn push_html(text: &str, strikethrough: bool) -> (html: String)
    ensures
        html@ == markdown_html(text@, strikethrough),
{
    let mut options = Options::empty();
    options.set(Options::ENABLE_STRIKETHROUGH, strikethrough);
    let mut html = String::new();
    html::push_html(&mut html, Parser::new_ext(text, options));
    html
}

/// Renders a Markdown document to an HTML fragment.
///
/// The dialect is CommonMark plus strikethrough; tables, footnotes and task
/// lists stay off. The fragment has no `<html>` or `<head>` wrapper.
pub fn render(text: &str) -> (html: String)
    ensures
        html@ == rendered(text@),
{
    push_html(text, true)
}

/// Rendering is deterministic: equal texts have equal renderings, so two
/// calls of [`render`] on the same text return the same HTML.
pub proof fn lemma_render_deterministic(first: Seq<char>, second: Seq<char>)
    requires
        first == second,
    ensures
        rendered(first) == rendered(second),
{
}

} // verus!
