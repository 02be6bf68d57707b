use vstd::prelude::*;

verus! {

/// The option bit of the markup parser that turns the table extension on.
pub const TABLE_EXTENSION: u32 = 2;

/// The HTML fragment that the markup parser and its HTML writer produce for a text,
/// with the parser's extensions chosen by the bits of `options`.
pub uninterp spec fn markdown_html(markup: Seq<char>, options: u32) -> Seq<char>;

/// Runs `pulldown_cmark::Parser::new_ext` on the text, with the options whose bits
/// are set in `options`, and lets `pulldown_cmark::html::push_html` write the events
/// into an empty string. Trusted: the fragment depends on the text and the options
/// alone. Nothing is claimed here about what the fragment holds.
#[verifier::external_body]
fn push_markdown(markup: &str, options: u32) -> (html: String)
    ensures
        html@ == markdown_html(markup@, options),
{
    let enabled = pulldown_cmark::Options::from_bits_truncate(options);
    let parser = pulldown_cmark::Parser::new_ext(markup, enabled);
    let mut html = String::new();
    pulldown_cmark::html::push_html(&mut html, parser);
    html
}

/// The fragment for a markup text: standard markup plus tables, no other extension.
pub open spec fn rendered(markup: Seq<char>) -> Seq<char> {
    markdown_html(markup, TABLE_EXTENSION)
}

/// Converts markup to an HTML fragment. Every text is accepted; what the parser does
/// not recognise comes out as literal text.
pub fn render(markup: &str) -> (fragment: String)
    ensures
        fragment@ == rendered(markup@),
{
    push_markdown(markup, TABLE_EXTENSION)
}

} // verus!
