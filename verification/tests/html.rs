use md2image::html::{build_html, column_width, supported_themes};
use md2image::AppError;

#[test]
fn supports_expected_theme_names() {
    assert_eq!(
        supported_themes(),
        &["default", "github-light", "pico", "splendor"]
    );
}

#[test]
fn embeds_selected_theme_stylesheet() {
    let html = build_html("<h1>Hello</h1>", 960, "pico").expect("theme should build");
    assert!(html.contains("--pico-font-size"));
}

#[test]
fn every_supported_theme_builds() {
    for name in supported_themes() {
        let html = build_html("<p>x</p>", 960, name).expect("supported theme should build");
        assert!(html.contains("<p>x</p>"));
    }
}

#[test]
fn unknown_theme_is_refused_with_its_name() {
    match build_html("<p>x</p>", 960, "dark") {
        Err(AppError::UnsupportedTheme { theme }) => assert_eq!(theme, "dark"),
        other => panic!("expected an unsupported theme, got {:?}", other.map(|_| ())),
    }
}

#[test]
fn default_and_github_light_build_the_same_page() {
    let a = build_html("<p>same</p>", 800, "default").unwrap();
    let b = build_html("<p>same</p>", 800, "github-light").unwrap();
    assert_eq!(a, b);
    assert!(a.contains("<article class=\"md2image-page markdown-body\">"));
}

#[test]
fn themes_without_article_class_use_the_page_class_alone() {
    let html = build_html("<p>x</p>", 960, "splendor").unwrap();
    assert!(html.contains("<article class=\"md2image-page\">"));
    assert!(html.contains("border-radius: 28px;"));
}

#[test]
fn column_width_is_page_width_less_gutter_within_bounds() {
    assert_eq!(column_width(960), 880);
    assert_eq!(column_width(400), 320);
    assert_eq!(column_width(100), 320);
    assert_eq!(column_width(0), 320);
    assert_eq!(column_width(1060), 980);
    assert_eq!(column_width(5000), 980);
    assert_eq!(column_width(u32::MAX), 980);
}

#[test]
fn page_layout_matches_the_template() {
    let html = build_html("<h1>Hello</h1>", 960, "pico").unwrap();
    assert!(html.starts_with("<!doctype html>\n<html lang=\"en\">\n  <head>\n"));
    assert!(html.contains("      body {\n        padding: 40px 24px;\n        background: #f3f5f7;\n        color: #1e293b;\n      }\n"));
    assert!(html.contains("        width: min(100%, 880px);\n        margin: 0 auto;\n        padding: 42px 46px;\n"));
    assert!(html.contains("        box-shadow: 0 24px 70px rgba(15, 23, 42, 0.10);\n"));
    assert!(html.contains(
        "    <article class=\"md2image-page\">\n      <h1>Hello</h1>\n    </article>\n    <script src=\"./katex/katex.min.js\"></script>\n    <script>\n"
    ));
    assert!(html.ends_with("      })();\n    </script>\n  </body>\n</html>\n"));
}

#[test]
fn page_loads_bundled_katex() {
    let html = build_html("<p>$x^2$</p>", 960, "default").unwrap();
    assert!(html.contains(
        "    <title>md2image</title>\n    <link rel=\"stylesheet\" href=\"./katex/katex.min.css\">\n    <style>\n"
    ));
    assert!(html.contains("<script src=\"./katex/katex.min.js\"></script>"));
    assert!(html.contains("window.__md2imageMathStatus = status;"));
    assert!(html.contains("throwOnError: false"));
    assert!(!html.contains("http://") && !html.contains("https://"));
    assert!(html.find("katex.min.js").unwrap() > html.find("</article>").unwrap());
}
