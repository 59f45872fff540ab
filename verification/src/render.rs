//! The preview page: markdown converted to HTML and framed in a full page,
//! loaded into the preview surface on every edit.

use vstd::prelude::*;
use vstd::string::*;

verus! {

/// The HTML that the markdown converter produces for a markdown text. The
/// result is determined by the text alone.
pub uninterp spec fn html_of(md: Seq<char>) -> Seq<char>;

/// Relies on pulldown_cmark's `Parser::new` and `html::push_html`: the HTML
/// rendering of the markdown text, determined by the text alone.
#[verifier::external_body]
pub(crate) fn markdown_to_html(s: &str) -> (r: String)
    ensures
        r@ == html_of(s@),
{
    let parser = pulldown_cmark::Parser::new(s);
    let mut result = String::new();
    pulldown_cmark::html::push_html(&mut result, parser);
    result
}

/// The page shown before any text is typed: an unstyled frame around `body`.
pub open spec fn plain_page(body: Seq<char>) -> Seq<char> {
    "<!DOCTYPE html><html><head></head><body>"@ + body + "</body></html>"@
}

/// The head of the live-preview page: code-highlighting assets and the
/// page-width style.
pub open spec fn styled_head() -> Seq<char> {
    "<!DOCTYPE html><html><head><link rel=\"stylesheet\" href=\"https://cdnjs.cloudflare.com/ajax/libs/highlight.js/10.1.1/styles/github.min.css\"><script src=\"https://cdnjs.cloudflare.com/ajax/libs/highlight.js/10.1.1/highlight.min.js\"></script><script src=\"https://cdnjs.cloudflare.com/ajax/libs/highlight.js/10.1.1/languages/rust.min.js\"></script><script>hljs.initHighlightingOnLoad()</script><style>body { width: 90%; margin: 0 auto }img { max-width: 90% }</style></head><body>"@
}

/// The live-preview page: the styled head, then `body`, then the closing tags.
pub open spec fn styled_page(body: Seq<char>) -> Seq<char> {
    styled_head() + body + "</body></html>"@
}

/// The placeholder text rendered while the editor is empty.
pub open spec fn default_text() -> Seq<char> {
    "Edit left, Live Preview Here."@
}

/// The page for an empty editor: the placeholder text, rendered and framed
/// without styling assets.
pub fn render_default() -> (r: String)
    ensures
        r@ == plain_page(html_of(default_text())),
{
    let html = markdown_to_html("Edit left, Live Preview Here.");
    let mut out = String::from_str("<!DOCTYPE html><html><head></head><body>");
    out.append(html.as_str());
    out.append("</body></html>");
    out
}

/// The page for the current editor text: its markdown rendering inside the
/// styled frame.
pub fn render(s: &str) -> (r: String)
    ensures
        r@ == styled_page(html_of(s@)),
{
    let html = markdown_to_html(s);
    let mut out = String::from_str(
        "<!DOCTYPE html><html><head><link rel=\"stylesheet\" href=\"https://cdnjs.cloudflare.com/ajax/libs/highlight.js/10.1.1/styles/github.min.css\"><script src=\"https://cdnjs.cloudflare.com/ajax/libs/highlight.js/10.1.1/highlight.min.js\"></script><script src=\"https://cdnjs.cloudflare.com/ajax/libs/highlight.js/10.1.1/languages/rust.min.js\"></script><script>hljs.initHighlightingOnLoad()</script><style>body { width: 90%; margin: 0 auto }img { max-width: 90% }</style></head><body>",
    );
    out.append(html.as_str());
    out.append("</body></html>");
    out
}

/// The page loaded for editor text `s`: the default page when `s` is empty,
/// the styled rendering of `s` otherwise.
pub open spec fn preview_page(s: Seq<char>) -> Seq<char> {
    if s.len() == 0 {
        plain_page(html_of(default_text()))
    } else {
        styled_page(html_of(s))
    }
}

/// What the preview shows after an edit leaves the editor holding `s`.
pub fn render_preview(s: &str) -> (r: String)
    ensures
        r@ == preview_page(s@),
{
    if s.is_empty() {
        render_default()
    } else {
        render(s)
    }
}

} // verus!
