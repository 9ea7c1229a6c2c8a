//! Markdown as the pages show it.
use vstd::prelude::*;

verus! {

/// The switches of the Markdown renderer that the portal sets.
#[derive(PartialEq, Eq, Structural, Clone, Copy, Debug)]
pub struct MarkdownOptions {
    pub strikethrough: bool,
    pub tagfilter: bool,
    pub table: bool,
    pub autolink: bool,
    /// Let raw HTML and dangerous links through.
    pub unsafe_: bool,
    /// Escape raw HTML instead of leaving it out.
    pub escape: bool,
}

/// The HTML that `comrak` renders for a Markdown text with these switches.
pub uninterp spec fn rendered_markdown(input: Seq<char>, options: MarkdownOptions) -> Seq<char>;

/// `comrak::markdown_to_html` with the default options but for the switches
/// given. What comes back depends on the text and the switches alone.
#[verifier::external_body]
fn markdown_to_html(input: &str, switches: &MarkdownOptions) -> (r: String)
    ensures
        r@ == rendered_markdown(input@, *switches),
{
    let mut options = comrak::Options::default();
    options.extension.strikethrough = switches.strikethrough;
    options.extension.tagfilter = switches.tagfilter;
    options.extension.table = switches.table;
    options.extension.autolink = switches.autolink;
    options.render.unsafe_ = switches.unsafe_;
    options.render.escape = switches.escape;
    comrak::markdown_to_html(input, &options)
}

/// The switches with which the portal renders Markdown: strikethrough, tag
/// filter, tables and autolinks on; raw HTML escaped.
pub open spec fn default_options() -> MarkdownOptions {
    MarkdownOptions {
        strikethrough: true,
        tagfilter: true,
        table: true,
        autolink: true,
        unsafe_: false,
        escape: true,
    }
}

/// The HTML for a Markdown text.
pub open spec fn markdown_html(input: Seq<char>) -> Seq<char> {
    rendered_markdown(input, default_options())
}

/// Renders a Markdown text as HTML.
pub fn markdown(input: &str) -> (r: String)
    ensures
        r@ == markdown_html(input@),
{
    let options = MarkdownOptions {
        strikethrough: true,
        tagfilter: true,
        table: true,
        autolink: true,
        unsafe_: false,
        escape: true,
    };
    markdown_to_html(input, &options)
}

} // verus!
