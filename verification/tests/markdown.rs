use md2image::markdown::render_html;

#[test]
fn renders_commonmark_image_and_raw_html() {
    let html = render_html("before ![alt](image.png) after\n\n<div>safe enough</div>");

    assert!(html.contains(r#"<img src="image.png" alt="alt" />"#));
    assert!(html.contains("<div>safe enough</div>"));
}

#[test]
fn renders_tables_and_task_lists() {
    let html = render_html("| A | B |\n| - | - |\n| 1 | 2 |\n\n- [x] done");

    assert!(html.contains("<table>"));
    assert!(html.contains(r#"type="checkbox""#));
}

#[test]
fn renders_strikethrough_footnotes_and_smart_punctuation() {
    let html = render_html("~~gone~~ \"quoted\"[^1]\n\n[^1]: note");

    assert!(html.contains("<del>gone</del>"));
    assert!(html.contains("\u{201c}quoted\u{201d}"));
    assert!(html.contains("footnote"));
}

#[test]
fn renders_a_heading() {
    assert_eq!(render_html("# Title"), "<h1>Title</h1>\n");
}
