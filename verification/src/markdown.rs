//! Markdown to HTML, with the CommonMark extensions the tool enables.

use vstd::prelude::*;

use pulldown_cmark::Options;

verus! {

/// `pulldown_cmark::Options`, the set of parser extensions to enable.
#[verifier::external_type_specification]
#[verifier::external_body]
pub struct ExOptions(pulldown_cmark::Options);

/// The bits that are set in a `pulldown_cmark::Options` value (a bitflags
/// set over `u32`), each bit given by its mask, a power of two.
pub uninterp spec fn enabled_options(options: Options) -> Set<u32>;

/// The HTML that `pulldown_cmark::html::push_html` writes for the events
/// that `pulldown_cmark::Parser::new_ext` yields on `markdown` with the
/// extensions whose bit masks are in `options`.
pub uninterp spec fn commonmark_html(markdown: Seq<char>, options: Set<u32>) -> Seq<char>;

/// Bit mask of `Options::ENABLE_TABLES`.
pub const TABLES: u32 = 2;

/// Bit mask of `Options::ENABLE_FOOTNOTES`.
pub const FOOTNOTES: u32 = 4;

/// Bit mask of `Options::ENABLE_STRIKETHROUGH`.
pub const STRIKETHROUGH: u32 = 8;

/// Bit mask of `Options::ENABLE_TASKLISTS`.
pub const TASKLISTS: u32 = 16;

/// Bit mask of `Options::ENABLE_SMART_PUNCTUATION`.
pub const SMART_PUNCTUATION: u32 = 32;

/// The extensions that Markdown is rendered with: strikethrough, tables,
/// task lists, footnotes and smart punctuation.
pub open spec fn markdown_extensions() -> Set<u32> {
    set![STRIKETHROUGH, TABLES, TASKLISTS, FOOTNOTES, SMART_PUNCTUATION]
}

/// `Options::empty()`: no flag set.
#[verifier::external_body]
fn options_empty() -> (options: Options)
    ensures
        enabled_options(options) == Set::<u32>::empty(),
{
    Options::empty()
}

/// `Options::insert`: sets the bits of `other` as well (`self.bits() |
/// other.bits()`).
#[verifier::external_body]
fn options_insert(options: &mut Options, other: Options)
    ensures
        enabled_options(*final(options)) == enabled_options(*old(options)).union(
            enabled_options(other),
        ),
{
    options.insert(other)
}

/// `Options::ENABLE_STRIKETHROUGH`, defined as `1 << 3`.
#[verifier::external_body]
fn enable_strikethrough() -> (options: Options)
    ensures
        enabled_options(options) == set![STRIKETHROUGH],
{
    Options::ENABLE_STRIKETHROUGH
}

/// `Options::ENABLE_TABLES`, defined as `1 << 1`.
#[verifier::external_body]
fn enable_tables() -> (options: Options)
    ensures
        enabled_options(options) == set![TABLES],
{
    Options::ENABLE_TABLES
}

/// `Options::ENABLE_TASKLISTS`, defined as `1 << 4`.
#[verifier::external_body]
fn enable_tasklists() -> (options: Options)
    ensures
        enabled_options(options) == set![TASKLISTS],
{
    Options::ENABLE_TASKLISTS
}

/// `Options::ENABLE_FOOTNOTES`, defined as `1 << 2`.
#[verifier::external_body]
fn enable_footnotes() -> (options: Options)
    ensures
        enabled_options(options) == set![FOOTNOTES],
{
    Options::ENABLE_FOOTNOTES
}

/// `Options::ENABLE_SMART_PUNCTUATION`, defined as `1 << 5`.
#[verifier::external_body]
fn enable_smart_punctuation() -> (options: Options)
    ensures
        enabled_options(options) == set![SMART_PUNCTUATION],
{
    Options::ENABLE_SMART_PUNCTUATION
}

/// Parses `markdown` with `pulldown_cmark::Parser::new_ext` and writes the
/// events as HTML with `pulldown_cmark::html::push_html` into a new string.
/// The contract names the result; it says nothing of its text.
#[verifier::external_body]
fn push_commonmark_html(markdown: &str, options: Options) -> (html: String)
    ensures
        html@ == commonmark_html(markdown@, enabled_options(options)),
{
    let parser = pulldown_cmark::Parser::new_ext(markdown, options);
    let mut html = String::new();
    pulldown_cmark::html::push_html(&mut html, parser);
    html
}

/// The parser extensions that Markdown is rendered with.
pub fn markdown_options() -> (options: Options)
    ensures
        enabled_options(options) == markdown_extensions(),
{
    let mut options = options_empty();
    options_insert(&mut options, enable_strikethrough());
    options_insert(&mut options, enable_tables());
    options_insert(&mut options, enable_tasklists());
    options_insert(&mut options, enable_footnotes());
    options_insert(&mut options, enable_smart_punctuation());
    assert(enabled_options(options) =~= markdown_extensions());
    options
}

/// Renders Markdown to an HTML fragment, with the extensions of
/// [`markdown_options`].
pub fn render_html(markdown: &str) -> (html: String)
    ensures
        html@ == commonmark_html(markdown@, markdown_extensions()),
{
    push_commonmark_html(markdown, markdown_options())
}

} // verus!
