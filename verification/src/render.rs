//! Rendering decisions: how a tall page is captured slice by slice, how the
//! browser's answers are read, and how its errors are classified.

use vstd::prelude::*;
use vstd::string::StrSliceExecFns;

use std::path::PathBuf;

use crate::error::AppError;
use crate::text::{
    chars_of, decimal, find_chars, first_occurrence_at, occurs_at, push_decimal, starts_with,
    trim, trim_end_char, trim_end_char_span, trim_span,
};

verus! {

/// The tallest screenshot taken in one piece, in device pixels.
pub const MAX_CAPTURE_SLICE_PX_HEIGHT: u32 = 4096;

/// Renders through a headless Chrome/Chromium.
pub struct ChromiumRenderer;

/// A renderer without a browser, not yet available.
pub struct PureRustRenderer;

/// Why the pure Rust renderer refuses to render.
pub const PURE_RUST_MESSAGE: &'static str = "pure Rust rendering is reserved for a future version";

impl PureRustRenderer {
    /// Refuses to render: this back end is reserved for a future version.
    pub fn render(&self, html: &str) -> (r: Result<Vec<u8>, AppError>)
        ensures
            r matches Err(AppError::Render(m)) && m@ == PURE_RUST_MESSAGE@,
    {
        Err(AppError::Render(PURE_RUST_MESSAGE.to_owned()))
    }
}

/// One screenshot of a tall page: the page is scrolled to `offset` and a
/// viewport `height` CSS pixels tall is captured, after the viewport is
/// resized to that height when `resize_viewport` is set.
#[derive(Debug, Clone, Copy, PartialEq, Eq, Structural)]
pub struct CaptureSlice {
    pub offset: u32,
    pub height: u32,
    pub resize_viewport: bool,
}

/// Whether `plan` is the capture of a page `page_height` CSS pixels tall
/// through a viewport `viewport_height` pixels tall: as few slices as cover
/// the page, each a full viewport tall but the last, which holds what
/// remains; the viewport is resized exactly for a slice shorter than it.
pub open spec fn is_capture_plan(page_height: u32, viewport_height: u32, plan: Seq<CaptureSlice>) -> bool {
    let n: int = plan.len() as int;
    let v: int = viewport_height as int;
    &&& page_height <= n * v
    &&& n == 0 || (n - 1) * v < page_height
    &&& forall|i: int|
        #![trigger plan[i]]
        0 <= i < n ==> {
            &&& plan[i].offset == i * v
            &&& plan[i].height == if page_height - i * v < v {
                page_height - i * v
            } else {
                v
            }
            &&& plan[i].resize_viewport == (plan[i].height != viewport_height)
        }
}

/// The slices in which a page `page_height` CSS pixels tall is captured
/// through a viewport `viewport_height` pixels tall, top to bottom.
pub fn capture_plan(page_height: u32, viewport_height: u32) -> (plan: Vec<CaptureSlice>)
    requires
        viewport_height > 0 || page_height == 0,
    ensures
        is_capture_plan(page_height, viewport_height, plan@),
{
    let mut plan: Vec<CaptureSlice> = Vec::new();
    let mut offset: u32 = 0;
    let mut current: u32 = viewport_height;
    let ghost v: int = viewport_height as int;
    assert(0 * v == 0);
    while offset < page_height
        invariant
            viewport_height > 0 || page_height == 0,
            v == viewport_height as int,
            offset <= page_height,
            offset < page_height ==> offset == plan@.len() * v,
            offset < page_height ==> current == viewport_height,
            offset == page_height ==> page_height <= plan@.len() * v,
            plan@.len() == 0 || (plan@.len() - 1) * v < page_height,
            forall|i: int|
                #![trigger plan@[i]]
                0 <= i < plan@.len() ==> {
                    &&& plan@[i].offset == i * v
                    &&& plan@[i].height == if page_height - i * v < v {
                        page_height - i * v
                    } else {
                        v
                    }
                    &&& plan@[i].resize_viewport == (plan@[i].height != viewport_height)
                },
        decreases page_height - offset,
    {
        let ghost n: int = plan@.len() as int;
        let remaining: u32 = page_height - offset;
        let height: u32 = if remaining < viewport_height {
            remaining
        } else {
            viewport_height
        };
        let resize_viewport = height != current;
        if resize_viewport {
            current = height;
        }
        plan.push(CaptureSlice { offset, height, resize_viewport });
        offset = offset + height;
        proof {
            assert((n + 1) * v == n * v + v) by (nonlinear_arith);
            assert(n * v - v < n * v) by (nonlinear_arith)
                requires
                    v > 0,
            ;
        }
    }
    plan
}

/// A capture plan covers the page exactly: its slices follow each other
/// from the top of the page to its bottom without gap or overlap, none is
/// empty or taller than the viewport, only the last one can need the
/// viewport resized, and a page no taller than the viewport is captured in
/// one slice of its own height.
pub proof fn capture_plan_covers_page(page_height: u32, viewport_height: u32, plan: Seq<CaptureSlice>)
    requires
        viewport_height > 0,
        is_capture_plan(page_height, viewport_height, plan),
    ensures
        plan.len() == 0 <==> page_height == 0,
        plan.len() > 0 ==> plan[0].offset == 0,
        forall|i: int| 0 <= i < plan.len() ==> 0 < #[trigger] plan[i].height <= viewport_height,
        forall|i: int|
            0 <= i < plan.len() - 1 ==> #[trigger] plan[i + 1].offset == plan[i].offset
                + plan[i].height,
        plan.len() > 0 ==> plan.last().offset + plan.last().height == page_height,
        forall|i: int| 0 <= i < plan.len() - 1 ==> !(#[trigger] plan[i].resize_viewport),
        0 < page_height <= viewport_height ==> plan.len() == 1 && plan[0].height == page_height,
{
    let n: int = plan.len() as int;
    let v: int = viewport_height as int;
    let h: int = page_height as int;
    if n > 0 {
        assert(0 * v == 0);
        assert(plan[0].offset == 0);
    }
    if n == 0 {
        assert(n * v == 0);
    }
    if h == 0 && n > 0 {
        assert((n - 1) * v >= 0) by (nonlinear_arith)
            requires
                n >= 1,
                v > 0,
        ;
    }
    assert forall|i: int| 0 <= i < n implies 0 < #[trigger] plan[i].height <= viewport_height by {
        assert(i * v <= (n - 1) * v) by (nonlinear_arith)
            requires
                0 <= i <= n - 1,
                v > 0,
        ;
    }
    assert forall|i: int| 0 <= i < n - 1 implies #[trigger] plan[i + 1].offset == plan[i].offset
        + plan[i].height by {
        assert((i + 1) * v <= (n - 1) * v) by (nonlinear_arith)
            requires
                0 <= i < n - 1,
                v > 0,
        ;
        assert((i + 1) * v == i * v + v) by (nonlinear_arith);
        assert(plan[i].height == v);
    }
    assert forall|i: int| 0 <= i < n - 1 implies !(#[trigger] plan[i].resize_viewport) by {
        assert((i + 1) * v <= (n - 1) * v) by (nonlinear_arith)
            requires
                0 <= i < n - 1,
                v > 0,
        ;
        assert((i + 1) * v == i * v + v) by (nonlinear_arith);
    }
    if n > 0 {
        assert(plan.last() == plan[n - 1]);
        assert(n * v == (n - 1) * v + v) by (nonlinear_arith);
    }
    if 0 < h <= v {
        if n >= 2 {
            assert((n - 1) * v >= v) by (nonlinear_arith)
                requires
                    n >= 2,
                    v > 0,
            ;
        }
        assert(n >= 1);
        assert(plan[0].height == h);
    }
}

/// How the browser answered the question of the page's content height.
pub enum HeightReply {
    /// No value came back.
    Missing,
    /// The value is not a non-negative integer.
    NotANumber,
    /// The height in CSS pixels.
    Pixels(u64),
}

/// What is reported when no content height came back.
pub const HEIGHT_MISSING_MESSAGE: &'static str = "browser did not return a content height";

/// What is reported when the content height is not a number.
pub const HEIGHT_NOT_A_NUMBER_MESSAGE: &'static str =
    "browser returned a non-numeric content height";

/// The start of what is reported for a content height beyond `u32`.
pub const HEIGHT_RANGE_MESSAGE: &'static str = "content height exceeds the supported range: ";

/// The content height of a page, from the browser's answer.
pub fn content_height(reply: HeightReply) -> (r: Result<u32, AppError>)
    ensures
        match reply {
            HeightReply::Missing => r matches Err(AppError::Render(m)) && m@
                == HEIGHT_MISSING_MESSAGE@,
            HeightReply::NotANumber => r matches Err(AppError::Render(m)) && m@
                == HEIGHT_NOT_A_NUMBER_MESSAGE@,
            HeightReply::Pixels(h) => if h <= u32::MAX {
                r == Ok::<u32, AppError>(h as u32)
            } else {
                r matches Err(AppError::Render(m)) && m@ == HEIGHT_RANGE_MESSAGE@ + decimal(
                    h as nat,
                ) + "px"@
            },
        },
{
    match reply {
        HeightReply::Missing => Err(AppError::Render(HEIGHT_MISSING_MESSAGE.to_owned())),
        HeightReply::NotANumber => Err(AppError::Render(HEIGHT_NOT_A_NUMBER_MESSAGE.to_owned())),
        HeightReply::Pixels(h) => {
            if h <= u32::MAX as u64 {
                Ok(h as u32)
            } else {
                let mut m = HEIGHT_RANGE_MESSAGE.to_owned();
                push_decimal(&mut m, h);
                m.append("px");
                Err(AppError::Render(m))
            }
        },
    }
}

/// The marker that the page script puts before a formula's error.
pub const MATH_ERROR_PREFIX: &'static str = "MD2IMAGE_MATH_ERROR:";

/// The detail of a formula error: what follows the marker, trimmed, without
/// the closing braces that the browser's error text ends with, trimmed again.
pub open spec fn math_detail(rest: Seq<char>) -> Seq<char> {
    trim(trim_end_char(trim(rest), '}'))
}

/// The error that a browser failure with text `message` is reported as:
/// a formula error when the text carries the marker, with the detail after
/// its first occurrence; otherwise a render error with the whole text.
pub open spec fn browser_error_for(message: Seq<char>, e: AppError) -> bool {
    let p = MATH_ERROR_PREFIX@;
    if exists|i: int| occurs_at(message, p, i) {
        exists|i: int|
            first_occurrence_at(message, p, i) && (e matches AppError::MathRender(d) && d@
                == math_detail(message.skip(i + p.len())))
    } else {
        e matches AppError::Render(m) && m@ == message
    }
}

/// Classifies a browser failure by its text.
pub fn map_browser_error(message: String) -> (e: AppError)
    ensures
        browser_error_for(message@, e),
{
    let chars = chars_of(message.as_str());
    let marker = chars_of(MATH_ERROR_PREFIX);
    match find_chars(&chars, &marker) {
        Some(start) => {
            assert(occurs_at(chars@, marker@, start as int));
            assert(start + marker@.len() <= chars@.len());
            assert(marker@.len() == marker.len());
            assert(chars@.len() == chars.len());
            let lo: usize = start + marker.len();
            let (a, b): (usize, usize) = trim_span(&chars, lo, chars.len());
            let e: usize = trim_end_char_span(&chars, a, b, '}');
            let (c, d): (usize, usize) = trim_span(&chars, a, e);
            let detail = message.as_str().substring_char(c, d).to_owned();
            proof {
                let m = message@;
                assert(chars@.subrange(lo as int, chars.len() as int) =~= m.skip(
                    lo as int,
                ));
                assert(first_occurrence_at(m, MATH_ERROR_PREFIX@, start as int));
            }
            AppError::MathRender(detail)
        },
        None => AppError::Render(message),
    }
}

/// What is reported when the page's path has no file URL.
pub const FILE_URL_MESSAGE: &'static str = "failed to convert HTML path to file URL: ";

/// The scheme and authority marker that every file URL starts with.
pub const FILE_URL_SCHEME: &'static str = "file://";

/// The text of the file URL of a path, from `url::Url::from_file_path`;
/// `None` when the path has none. Which paths have one, and the text after
/// the leading `file://` (the path's components, percent-encoded), depend
/// on the platform and are not stated.
#[verifier::external_body]
fn file_url(path: &PathBuf) -> (url: Option<String>)
    ensures
        url matches Some(u) ==> starts_with(u@, FILE_URL_SCHEME@),
{
    match url::Url::from_file_path(path) {
        Ok(url) => Some(String::from(url)),
        Err(()) => None,
    }
}

/// The file URL of the page, or the error that reports a path without
/// one (`path_text` is the path as displayed).
pub fn file_url_or_error(path_text: &str, converted: Option<String>) -> (r: Result<String, AppError>)
    ensures
        match converted {
            Some(url) => r == Ok::<String, AppError>(url),
            None => r matches Err(AppError::Render(m)) && m@ == FILE_URL_MESSAGE@ + path_text@,
        },
{
    match converted {
        Some(url) => Ok(url),
        None => {
            let mut m = FILE_URL_MESSAGE.to_owned();
            m.append(path_text);
            Err(AppError::Render(m))
        },
    }
}

/// The file URL that the browser opens the page at: a `file://` URL, or a
/// render error that names the path.
pub fn html_file_url(path: &PathBuf) -> (r: Result<String, AppError>)
    ensures
        r is Ok || r matches Err(AppError::Render(_)),
        r matches Ok(u) ==> starts_with(u@, FILE_URL_SCHEME@),
        r matches Err(AppError::Render(m)) ==> m@.len() >= FILE_URL_MESSAGE@.len() && m@.take(
            FILE_URL_MESSAGE@.len() as int,
        ) == FILE_URL_MESSAGE@,
{
    let converted = file_url(path);
    let text = crate::error::path_text(path);
    let r = file_url_or_error(text.as_str(), converted);
    proof {
        if r is Err {
            assert(r matches Err(AppError::Render(m)) && m@ == FILE_URL_MESSAGE@ + text@);
            assert((FILE_URL_MESSAGE@ + text@).take(FILE_URL_MESSAGE@.len() as int)
                =~= FILE_URL_MESSAGE@);
        }
    }
    r
}

} // verus!
