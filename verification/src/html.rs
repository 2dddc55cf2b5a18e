//! The HTML page around the rendered Markdown: themes and layout.

use vstd::prelude::*;

use crate::error::AppError;
use crate::katex::{KATEX_SCRIPT_PATH, KATEX_STYLESHEET_PATH, MATH_RENDER_SCRIPT};
use crate::text::{decimal, occurs_at, push_decimal, str_equals};
use crate::themes::{GITHUB_LIGHT_CSS, PICO_CSS, SPLENDOR_CSS};

verus! {

/// The widest the article column may be, in CSS pixels.
pub const BODY_MAX_WIDTH: u32 = 980;

/// The narrowest the article column may be, in CSS pixels.
pub const BODY_MIN_WIDTH: u32 = 320;

/// The horizontal room that the page keeps around the article column.
pub const PAGE_GUTTER: u32 = 80;

/// The look of a page: colours, spacing and the stylesheet it embeds.
pub struct Theme {
    pub article_class: &'static str,
    pub body_background: &'static str,
    pub body_color: &'static str,
    pub article_background: &'static str,
    pub article_border: &'static str,
    pub article_shadow: &'static str,
    pub article_padding: &'static str,
    pub stylesheet: &'static str,
    pub extra_css: &'static str,
}

/// Extra rules of the GitHub-light theme.
pub const GITHUB_LIGHT_EXTRA_CSS: &'static str = "\n      .md2image-page.markdown-body {\n        min-width: 200px;\n      }\n    ";

/// Extra rules of the Pico theme.
pub const PICO_EXTRA_CSS: &'static str = "\n      .md2image-page {\n        --pico-font-family: \"Inter\", \"Segoe UI\", -apple-system, BlinkMacSystemFont, \"Helvetica Neue\", sans-serif;\n        --pico-border-radius: 16px;\n      }\n\n      .md2image-page h1,\n      .md2image-page h2,\n      .md2image-page h3 {\n        letter-spacing: -0.03em;\n      }\n    ";

/// Extra rules of the Splendor theme.
pub const SPLENDOR_EXTRA_CSS: &'static str = "\n      .md2image-page {\n        border-radius: 28px;\n      }\n    ";

// Pieces of the page template, in the order in which they appear.
pub const DOC_HEAD: &'static str = "<!doctype html>\n<html lang=\"en\">\n  <head>\n    <meta charset=\"utf-8\">\n    <meta name=\"viewport\" content=\"width=device-width, initial-scale=1\">\n    <title>md2image</title>\n    <link rel=\"stylesheet\" href=\"";

pub const DOC_STYLE_OPEN: &'static str = "\">\n    <style>\n";

pub const DOC_PAGE_RULES: &'static str = "\n\n      html, body {\n        margin: 0;\n        padding: 0;\n        width: 100%;\n      }\n\n      * {\n        box-sizing: border-box;\n      }\n\n      body {\n        padding: 40px 24px;\n        background: ";

pub const DOC_COLOR: &'static str = ";\n        color: ";

pub const DOC_ARTICLE_WIDTH: &'static str = ";\n      }\n\n      .md2image-page {\n        width: min(100%, ";

pub const DOC_ARTICLE_PADDING: &'static str = "px);\n        margin: 0 auto;\n        padding: ";

pub const DOC_ARTICLE_BACKGROUND: &'static str = ";\n        background: ";

pub const DOC_ARTICLE_BORDER: &'static str = ";\n        border: 1px solid ";

pub const DOC_ARTICLE_SHADOW: &'static str = ";\n        box-shadow: ";

pub const DOC_ARTICLE_RULES: &'static str = ";\n        border-radius: 20px;\n        overflow-wrap: break-word;\n      }\n\n      .md2image-page > :first-child {\n        margin-top: 0;\n      }\n\n      .md2image-page img {\n        max-width: 100%;\n        height: auto;\n      }\n\n";

pub const DOC_STYLE_END: &'static str = "\n    </style>\n  </head>\n  <body>\n    <article class=\"";

pub const DOC_ARTICLE_CONTENT: &'static str = "\">\n      ";

pub const DOC_ARTICLE_END: &'static str = "\n    </article>\n    <script src=\"";

pub const DOC_MATH_SCRIPT_OPEN: &'static str = "\"></script>\n    <script>\n";

pub const DOC_END: &'static str = "    </script>\n  </body>\n</html>\n";

/// The GitHub-light theme, which is also the default.
pub open spec fn github_light_theme() -> Theme {
    Theme {
        article_class: "markdown-body",
        body_background: "#f6f8fa",
        body_color: "#1f2328",
        article_background: "#ffffff",
        article_border: "#d0d7de",
        article_shadow: "0 24px 70px rgba(31, 35, 40, 0.08)",
        article_padding: "45px",
        stylesheet: GITHUB_LIGHT_CSS,
        extra_css: GITHUB_LIGHT_EXTRA_CSS,
    }
}

/// The Pico theme.
pub open spec fn pico_theme() -> Theme {
    Theme {
        article_class: "",
        body_background: "#f3f5f7",
        body_color: "#1e293b",
        article_background: "#ffffff",
        article_border: "#dfe7ef",
        article_shadow: "0 24px 70px rgba(15, 23, 42, 0.10)",
        article_padding: "42px 46px",
        stylesheet: PICO_CSS,
        extra_css: PICO_EXTRA_CSS,
    }
}

/// The Splendor theme.
pub open spec fn splendor_theme() -> Theme {
    Theme {
        article_class: "",
        body_background: "#f3eee7",
        body_color: "#2b241e",
        article_background: "#fffdf9",
        article_border: "#eadfce",
        article_shadow: "0 26px 70px rgba(73, 53, 35, 0.12)",
        article_padding: "52px 58px",
        stylesheet: SPLENDOR_CSS,
        extra_css: SPLENDOR_EXTRA_CSS,
    }
}

/// The theme of a name: `default` and `github-light` name the same theme.
pub open spec fn theme_for(name: Seq<char>) -> Option<Theme> {
    if name == "default"@ || name == "github-light"@ {
        Some(github_light_theme())
    } else if name == "pico"@ {
        Some(pico_theme())
    } else if name == "splendor"@ {
        Some(splendor_theme())
    } else {
        None
    }
}

/// The names under which themes are offered, in order.
pub open spec fn theme_names() -> Seq<Seq<char>> {
    seq!["default"@, "github-light"@, "pico"@, "splendor"@]
}

/// The width of the article column for a page `width` pixels wide: the
/// page width less the gutter, kept between the narrowest and widest
/// column.
pub open spec fn body_width(width: u32) -> u32 {
    let w: u32 = if width >= PAGE_GUTTER { (width - PAGE_GUTTER) as u32 } else { 0u32 };
    if w < BODY_MIN_WIDTH {
        BODY_MIN_WIDTH
    } else if w > BODY_MAX_WIDTH {
        BODY_MAX_WIDTH
    } else {
        w
    }
}

/// The `class` attribute of the article element of a theme.
pub open spec fn article_class_attr(t: Theme) -> Seq<char> {
    if t.article_class@.len() == 0 {
        "md2image-page"@
    } else {
        "md2image-page "@ + t.article_class@
    }
}

/// The whole HTML document for a theme, an article column width and the
/// rendered Markdown.
pub open spec fn html_document(t: Theme, column_width: u32, markdown_html: Seq<char>) -> Seq<char> {
    DOC_HEAD@ + KATEX_STYLESHEET_PATH@ + DOC_STYLE_OPEN@ + t.stylesheet@ + DOC_PAGE_RULES@
        + t.body_background@ + DOC_COLOR@ + t.body_color@ + DOC_ARTICLE_WIDTH@ + decimal(
        column_width as nat,
    ) + DOC_ARTICLE_PADDING@ + t.article_padding@ + DOC_ARTICLE_BACKGROUND@
        + t.article_background@ + DOC_ARTICLE_BORDER@ + t.article_border@ + DOC_ARTICLE_SHADOW@
        + t.article_shadow@ + DOC_ARTICLE_RULES@ + t.extra_css@ + DOC_STYLE_END@
        + article_class_attr(t) + DOC_ARTICLE_CONTENT@ + markdown_html + DOC_ARTICLE_END@
        + KATEX_SCRIPT_PATH@ + DOC_MATH_SCRIPT_OPEN@ + MATH_RENDER_SCRIPT@ + DOC_END@
}

/// A theme name is accepted exactly when `supported_themes` lists it.
pub proof fn supported_themes_are_the_accepted_names(name: Seq<char>)
    ensures
        theme_for(name) is Some <==> theme_names().contains(name),
{
    if theme_for(name) is Some {
        if name == "default"@ {
            assert(theme_names()[0] == name);
        } else if name == "github-light"@ {
            assert(theme_names()[1] == name);
        } else if name == "pico"@ {
            assert(theme_names()[2] == name);
        } else {
            assert(theme_names()[3] == name);
        }
    }
}

/// `default` and `github-light` name the same theme.
pub proof fn default_theme_is_github_light()
    ensures
        theme_for("default"@) == theme_for("github-light"@),
        theme_for("default"@) == Some(github_light_theme()),
{
}

/// The article column is never narrower than 320 nor wider than 980 CSS
/// pixels; between those bounds it is the page width less the gutter.
pub proof fn column_width_is_bounded(width: u32)
    ensures
        BODY_MIN_WIDTH <= body_width(width) <= BODY_MAX_WIDTH,
        BODY_MIN_WIDTH + PAGE_GUTTER <= width <= BODY_MAX_WIDTH + PAGE_GUTTER ==> body_width(width)
            == width - PAGE_GUTTER,
        320 <= body_width(width) <= 980,
        width <= 400 ==> body_width(width) == 320,
        width >= 1060 ==> body_width(width) == 980,
        400 <= width <= 1060 ==> body_width(width) == width - 80,
{
}

/// Widening the page never narrows the article column.
pub proof fn column_width_grows_with_page_width(narrow: u32, wide: u32)
    requires
        narrow <= wide,
    ensures
        body_width(narrow) <= body_width(wide),
{
}

/// Each theme name selects the stylesheet it is named for: `default` and
/// `github-light` the GitHub-light styles, `pico` the Pico styles and
/// `splendor` the Splendor styles; and the page built with that theme holds
/// that stylesheet, unchanged, right after its head and KaTeX link.
pub proof fn themes_embed_their_stylesheets(column_width: u32, markdown_html: Seq<char>)
    ensures
        theme_for("default"@) matches Some(t) && t.stylesheet == GITHUB_LIGHT_CSS
            && t.article_class@ == "markdown-body"@,
        theme_for("github-light"@) matches Some(t) && t.stylesheet == GITHUB_LIGHT_CSS
            && t.article_class@ == "markdown-body"@,
        theme_for("pico"@) matches Some(t) && t.stylesheet == PICO_CSS,
        theme_for("splendor"@) matches Some(t) && t.stylesheet == SPLENDOR_CSS,
        forall|name: Seq<char>|
            (name == "default"@ || name == "github-light"@) ==> occurs_at(
                html_document(#[trigger] theme_for(name).unwrap(), column_width, markdown_html),
                GITHUB_LIGHT_CSS@,
                (DOC_HEAD@.len() + KATEX_STYLESHEET_PATH@.len() + DOC_STYLE_OPEN@.len()) as int,
            ),
        occurs_at(
            html_document(theme_for("pico"@).unwrap(), column_width, markdown_html),
            PICO_CSS@,
            (DOC_HEAD@.len() + KATEX_STYLESHEET_PATH@.len() + DOC_STYLE_OPEN@.len()) as int,
        ),
        occurs_at(
            html_document(theme_for("splendor"@).unwrap(), column_width, markdown_html),
            SPLENDOR_CSS@,
            (DOC_HEAD@.len() + KATEX_STYLESHEET_PATH@.len() + DOC_STYLE_OPEN@.len()) as int,
        ),
{
    theme_names_differ();
    page_stylesheet_position(theme_for("default"@).unwrap(), column_width, markdown_html);
    page_stylesheet_position(theme_for("github-light"@).unwrap(), column_width, markdown_html);
    page_stylesheet_position(theme_for("pico"@).unwrap(), column_width, markdown_html);
    page_stylesheet_position(theme_for("splendor"@).unwrap(), column_width, markdown_html);
}

proof fn theme_names_differ()
    ensures
        "pico"@ != "default"@,
        "pico"@ != "github-light"@,
        "splendor"@ != "default"@,
        "splendor"@ != "github-light"@,
        "splendor"@ != "pico"@,
{
    reveal_strlit("default");
    reveal_strlit("github-light");
    reveal_strlit("pico");
    reveal_strlit("splendor");
    assert("pico"@.len() != "default"@.len() && "pico"@.len() != "github-light"@.len());
    assert("splendor"@[0] != "default"@[0] && "splendor"@.len() != "github-light"@.len()
        && "splendor"@.len() != "pico"@.len());
}

/// A theme's stylesheet stands in its page right after the head and the
/// KaTeX link.
proof fn page_stylesheet_position(t: Theme, column_width: u32, markdown_html: Seq<char>)
    ensures
        occurs_at(
            html_document(t, column_width, markdown_html),
            t.stylesheet@,
            (DOC_HEAD@.len() + KATEX_STYLESHEET_PATH@.len() + DOC_STYLE_OPEN@.len()) as int,
        ),
{
    let doc = html_document(t, column_width, markdown_html);
    let b = DOC_HEAD@ + KATEX_STYLESHEET_PATH@ + DOC_STYLE_OPEN@;
    let rest = DOC_PAGE_RULES@ + t.body_background@ + DOC_COLOR@ + t.body_color@
        + DOC_ARTICLE_WIDTH@ + decimal(column_width as nat) + DOC_ARTICLE_PADDING@
        + t.article_padding@ + DOC_ARTICLE_BACKGROUND@ + t.article_background@
        + DOC_ARTICLE_BORDER@ + t.article_border@ + DOC_ARTICLE_SHADOW@ + t.article_shadow@
        + DOC_ARTICLE_RULES@ + t.extra_css@ + DOC_STYLE_END@ + article_class_attr(t)
        + DOC_ARTICLE_CONTENT@ + markdown_html + DOC_ARTICLE_END@ + KATEX_SCRIPT_PATH@
        + DOC_MATH_SCRIPT_OPEN@ + MATH_RENDER_SCRIPT@ + DOC_END@;
    assert(doc =~= b + t.stylesheet@ + rest);
    let k: int = b.len() as int;
    assert(doc.subrange(k, k + t.stylesheet@.len()) =~= t.stylesheet@);
}

/// A page holds its theme's stylesheet and, inside the article, the
/// rendered Markdown, each unchanged; it links the bundled KaTeX stylesheet
/// in its head and loads the KaTeX script and the formula script after the
/// article.
pub proof fn page_embeds_stylesheet_markdown_and_katex(
    t: Theme,
    column_width: u32,
    markdown_html: Seq<char>,
)
    ensures
        occurs_at(
            html_document(t, column_width, markdown_html),
            KATEX_STYLESHEET_PATH@,
            DOC_HEAD@.len() as int,
        ),
        exists|i: int| occurs_at(html_document(t, column_width, markdown_html), t.stylesheet@, i),
        exists|i: int| occurs_at(html_document(t, column_width, markdown_html), markdown_html, i),
        exists|i: int|
            occurs_at(html_document(t, column_width, markdown_html), KATEX_SCRIPT_PATH@, i),
        exists|i: int|
            occurs_at(html_document(t, column_width, markdown_html), MATH_RENDER_SCRIPT@, i),
{
    let doc = html_document(t, column_width, markdown_html);
    let a = DOC_HEAD@;
    let b = a + KATEX_STYLESHEET_PATH@ + DOC_STYLE_OPEN@;
    let c = b + t.stylesheet@ + DOC_PAGE_RULES@ + t.body_background@ + DOC_COLOR@ + t.body_color@
        + DOC_ARTICLE_WIDTH@ + decimal(column_width as nat) + DOC_ARTICLE_PADDING@
        + t.article_padding@ + DOC_ARTICLE_BACKGROUND@ + t.article_background@
        + DOC_ARTICLE_BORDER@ + t.article_border@ + DOC_ARTICLE_SHADOW@ + t.article_shadow@
        + DOC_ARTICLE_RULES@ + t.extra_css@ + DOC_STYLE_END@ + article_class_attr(t)
        + DOC_ARTICLE_CONTENT@;
    let d = c + markdown_html + DOC_ARTICLE_END@;
    let e = d + KATEX_SCRIPT_PATH@ + DOC_MATH_SCRIPT_OPEN@;
    assert(doc == e + MATH_RENDER_SCRIPT@ + DOC_END@);
    let k: int = a.len() as int;
    assert(doc.subrange(k, k + KATEX_STYLESHEET_PATH@.len()) =~= KATEX_STYLESHEET_PATH@);
    let ks: int = b.len() as int;
    assert(doc.subrange(ks, ks + t.stylesheet@.len()) =~= t.stylesheet@);
    assert(occurs_at(doc, t.stylesheet@, ks));
    let km: int = c.len() as int;
    assert(doc.subrange(km, km + markdown_html.len()) =~= markdown_html);
    assert(occurs_at(doc, markdown_html, km));
    let kj: int = d.len() as int;
    assert(doc.subrange(kj, kj + KATEX_SCRIPT_PATH@.len()) =~= KATEX_SCRIPT_PATH@);
    assert(occurs_at(doc, KATEX_SCRIPT_PATH@, kj));
    let kr: int = e.len() as int;
    assert(doc.subrange(kr, kr + MATH_RENDER_SCRIPT@.len()) =~= MATH_RENDER_SCRIPT@);
    assert(occurs_at(doc, MATH_RENDER_SCRIPT@, kr));
}

fn github_light() -> (t: Theme)
    ensures
        t == github_light_theme(),
{
    Theme {
        article_class: "markdown-body",
        body_background: "#f6f8fa",
        body_color: "#1f2328",
        article_background: "#ffffff",
        article_border: "#d0d7de",
        article_shadow: "0 24px 70px rgba(31, 35, 40, 0.08)",
        article_padding: "45px",
        stylesheet: GITHUB_LIGHT_CSS,
        extra_css: GITHUB_LIGHT_EXTRA_CSS,
    }
}

fn pico() -> (t: Theme)
    ensures
        t == pico_theme(),
{
    Theme {
        article_class: "",
        body_background: "#f3f5f7",
        body_color: "#1e293b",
        article_background: "#ffffff",
        article_border: "#dfe7ef",
        article_shadow: "0 24px 70px rgba(15, 23, 42, 0.10)",
        article_padding: "42px 46px",
        stylesheet: PICO_CSS,
        extra_css: PICO_EXTRA_CSS,
    }
}

fn splendor() -> (t: Theme)
    ensures
        t == splendor_theme(),
{
    Theme {
        article_class: "",
        body_background: "#f3eee7",
        body_color: "#2b241e",
        article_background: "#fffdf9",
        article_border: "#eadfce",
        article_shadow: "0 26px 70px rgba(73, 53, 35, 0.12)",
        article_padding: "52px 58px",
        stylesheet: SPLENDOR_CSS,
        extra_css: SPLENDOR_EXTRA_CSS,
    }
}

/// The theme that `name` selects, if any.
pub fn theme(name: &str) -> (t: Option<Theme>)
    ensures
        t == theme_for(name@),
{
    if str_equals(name, "default") || str_equals(name, "github-light") {
        Some(github_light())
    } else if str_equals(name, "pico") {
        Some(pico())
    } else if str_equals(name, "splendor") {
        Some(splendor())
    } else {
        None
    }
}

/// The names of the themes that pages can be built with.
pub fn supported_themes() -> (names: &'static [&'static str])
    ensures
        names@.map_values(|n: &'static str| n@) == theme_names(),
{
    let names: &'static [&'static str] = &["default", "github-light", "pico", "splendor"];
    assert(names@.map_values(|n: &'static str| n@) =~= theme_names());
    names
}

/// The width of the article column for a page `width` pixels wide.
pub fn column_width(width: u32) -> (w: u32)
    ensures
        w == body_width(width),
{
    let inner: u32 = width.saturating_sub(PAGE_GUTTER);
    if inner < BODY_MIN_WIDTH {
        BODY_MIN_WIDTH
    } else if inner > BODY_MAX_WIDTH {
        BODY_MAX_WIDTH
    } else {
        inner
    }
}

/// The `class` attribute of the article element of a theme.
fn article_class(t: &Theme) -> (attr: String)
    ensures
        attr@ == article_class_attr(*t),
{
    proof {
        reveal_strlit("md2image-page");
        reveal_strlit("md2image-page ");
        reveal_strlit(" ");
    }
    let mut attr = String::new();
    attr.append("md2image-page");
    if !t.article_class.is_empty() {
        attr.append(" ");
        attr.append(t.article_class);
        assert("md2image-page"@ + " "@ =~= "md2image-page "@);
    }
    attr
}

/// Builds the HTML page that shows `markdown_html` in the theme named
/// `theme_name`, laid out for a page `width` CSS pixels wide.
///
/// Fails with `UnsupportedTheme` exactly when no theme has that name.
pub fn build_html(markdown_html: &str, width: u32, theme_name: &str) -> (r: Result<String, AppError>)
    ensures
        match theme_for(theme_name@) {
            Some(t) => r matches Ok(html) && html@ == html_document(
                t,
                body_width(width),
                markdown_html@,
            ),
            None => r matches Err(AppError::UnsupportedTheme { theme }) && theme@ == theme_name@,
        },
{
    let t = match theme(theme_name) {
        Some(t) => t,
        None => {
            return Err(AppError::UnsupportedTheme { theme: theme_name.to_owned() });
        },
    };
    let column: u32 = column_width(width);
    let mut html = String::new();
    html.append(DOC_HEAD);
    html.append(KATEX_STYLESHEET_PATH);
    html.append(DOC_STYLE_OPEN);
    html.append(t.stylesheet);
    html.append(DOC_PAGE_RULES);
    html.append(t.body_background);
    html.append(DOC_COLOR);
    html.append(t.body_color);
    html.append(DOC_ARTICLE_WIDTH);
    push_decimal(&mut html, column as u64);
    html.append(DOC_ARTICLE_PADDING);
    html.append(t.article_padding);
    html.append(DOC_ARTICLE_BACKGROUND);
    html.append(t.article_background);
    html.append(DOC_ARTICLE_BORDER);
    html.append(t.article_border);
    html.append(DOC_ARTICLE_SHADOW);
    html.append(t.article_shadow);
    html.append(DOC_ARTICLE_RULES);
    html.append(t.extra_css);
    html.append(DOC_STYLE_END);
    let class_attr = article_class(&t);
    html.append(class_attr.as_str());
    html.append(DOC_ARTICLE_CONTENT);
    html.append(markdown_html);
    html.append(DOC_ARTICLE_END);
    html.append(KATEX_SCRIPT_PATH);
    html.append(DOC_MATH_SCRIPT_OPEN);
    html.append(MATH_RENDER_SCRIPT);
    html.append(DOC_END);
    Ok(html)
}

} // verus!
