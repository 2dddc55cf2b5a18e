use std::path::PathBuf;

use md2image::render::{
    capture_plan, content_height, file_url_or_error, html_file_url, map_browser_error,
    CaptureSlice, HeightReply, PureRustRenderer,
};
use md2image::AppError;

fn covers(plan: &[CaptureSlice], page: u32, viewport: u32) {
    let mut next = 0u32;
    for (i, slice) in plan.iter().enumerate() {
        assert_eq!(slice.offset, next);
        assert!(slice.height > 0 && slice.height <= viewport);
        assert_eq!(slice.resize_viewport, slice.height != viewport);
        if i + 1 < plan.len() {
            assert!(!slice.resize_viewport);
        }
        next += slice.height;
    }
    assert_eq!(next, page);
}

#[test]
fn tall_page_is_captured_without_truncation() {
    let plan = capture_plan(60_001, 4096);
    assert_eq!(plan.len(), 15);
    covers(&plan, 60_001, 4096);
    assert_eq!(
        plan[14],
        CaptureSlice { offset: 14 * 4096, height: 60_001 - 14 * 4096, resize_viewport: true }
    );
}

#[test]
fn exact_multiple_needs_no_resize() {
    let plan = capture_plan(8192, 2048);
    assert_eq!(plan.len(), 4);
    covers(&plan, 8192, 2048);
    assert!(plan.iter().all(|s| !s.resize_viewport));
}

#[test]
fn short_page_is_one_slice() {
    let plan = capture_plan(500, 500);
    assert_eq!(plan, vec![CaptureSlice { offset: 0, height: 500, resize_viewport: false }]);
    let plan = capture_plan(300, 2048);
    assert_eq!(plan, vec![CaptureSlice { offset: 0, height: 300, resize_viewport: true }]);
}

#[test]
fn empty_page_has_no_slices() {
    assert!(capture_plan(0, 0).is_empty());
    assert!(capture_plan(0, 100).is_empty());
}

#[test]
fn content_height_replies() {
    assert_eq!(content_height(HeightReply::Pixels(1234)).unwrap(), 1234);
    assert_eq!(content_height(HeightReply::Pixels(u32::MAX as u64)).unwrap(), u32::MAX);
    match content_height(HeightReply::Pixels(4_294_967_296)) {
        Err(AppError::Render(m)) => {
            assert_eq!(m, "content height exceeds the supported range: 4294967296px")
        }
        _ => panic!("expected a range error"),
    }
    assert!(matches!(
        content_height(HeightReply::Missing),
        Err(AppError::Render(m)) if m == "browser did not return a content height"
    ));
    assert!(matches!(
        content_height(HeightReply::NotANumber),
        Err(AppError::Render(m)) if m == "browser returned a non-numeric content height"
    ));
}

#[test]
fn math_errors_are_recognised() {
    let error = map_browser_error(
        "Exception { description: \"Error: MD2IMAGE_MATH_ERROR: Undefined control sequence \\foo }}\" }".to_string(),
    );
    match error {
        AppError::MathRender(detail) => {
            assert_eq!(detail, "Undefined control sequence \\foo }}\"")
        }
        _ => panic!("expected a formula error"),
    }
    let error = map_browser_error("MD2IMAGE_MATH_ERROR:  bad formula } }  ".to_string());
    assert!(matches!(error, AppError::MathRender(ref d) if d == "bad formula }"));
}

#[test]
fn first_marker_decides_the_detail() {
    let error = map_browser_error("MD2IMAGE_MATH_ERROR:a MD2IMAGE_MATH_ERROR:b}".to_string());
    assert!(matches!(error, AppError::MathRender(ref d) if d == "a MD2IMAGE_MATH_ERROR:b"));
}

#[test]
fn other_browser_errors_are_render_errors() {
    let error = map_browser_error("navigation timed out".to_string());
    assert!(matches!(error, AppError::Render(ref m) if m == "navigation timed out"));
}

#[test]
fn pure_rust_renderer_is_reserved() {
    let error = PureRustRenderer.render("<p>x</p>").expect_err("not available");
    assert!(matches!(error, AppError::Render(ref m) if m == "pure Rust rendering is reserved for a future version"));
}

#[test]
fn file_urls_of_absolute_paths() {
    let url = html_file_url(&PathBuf::from("/tmp/render/document.html")).unwrap();
    assert_eq!(url, "file:///tmp/render/document.html");
    let error = html_file_url(&PathBuf::from("relative/document.html")).expect_err("relative");
    assert!(matches!(error, AppError::Render(ref m) if m == "failed to convert HTML path to file URL: relative/document.html"));
    assert_eq!(file_url_or_error("x", Some("file:///x".to_string())).unwrap(), "file:///x");
}
