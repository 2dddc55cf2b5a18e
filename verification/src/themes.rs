//! The stylesheets that the page themes embed.

use vstd::prelude::*;

verus! {

/// Light GitHub-style Markdown body styles, scoped to `.markdown-body`.
pub const GITHUB_LIGHT_CSS: &'static str = r#".markdown-body {
  -ms-text-size-adjust: 100%;
  -webkit-text-size-adjust: 100%;
  margin: 0;
  color: #1f2328;
  background-color: #ffffff;
  font-family: -apple-system, BlinkMacSystemFont, "Segoe UI", "Noto Sans", Helvetica, Arial, sans-serif;
  font-size: 16px;
  line-height: 1.5;
  word-wrap: break-word;
}
.markdown-body h1, .markdown-body h2 {
  padding-bottom: .3em;
  border-bottom: 1px solid #d1d9e0b3;
}
.markdown-body h1, .markdown-body h2, .markdown-body h3,
.markdown-body h4, .markdown-body h5, .markdown-body h6 {
  margin-top: 1.5rem;
  margin-bottom: 1rem;
  font-weight: 600;
  line-height: 1.25;
}
.markdown-body h1 { font-size: 2em; }
.markdown-body h2 { font-size: 1.5em; }
.markdown-body h3 { font-size: 1.25em; }
.markdown-body p, .markdown-body blockquote, .markdown-body ul, .markdown-body ol,
.markdown-body table, .markdown-body pre {
  margin-top: 0;
  margin-bottom: 16px;
}
.markdown-body a { color: #0969da; text-decoration: none; }
.markdown-body blockquote {
  margin: 0;
  padding: 0 1em;
  color: #59636e;
  border-left: .25em solid #d1d9e0;
}
.markdown-body code, .markdown-body tt {
  padding: .2em .4em;
  margin: 0;
  font-size: 85%;
  white-space: break-spaces;
  background-color: #818b981f;
  border-radius: 6px;
  font-family: ui-monospace, SFMono-Regular, "SF Mono", Menlo, Consolas, monospace;
}
.markdown-body pre {
  padding: 16px;
  overflow: auto;
  font-size: 85%;
  line-height: 1.45;
  color: #1f2328;
  background-color: #f6f8fa;
  border-radius: 6px;
}
.markdown-body pre code { padding: 0; background-color: transparent; }
.markdown-body hr {
  height: .25em;
  padding: 0;
  margin: 24px 0;
  background-color: #d1d9e0;
  border: 0;
}
.markdown-body ul, .markdown-body ol { padding-left: 2em; }
.markdown-body table { border-spacing: 0; border-collapse: collapse; display: block; width: max-content; max-width: 100%; overflow: auto; }
.markdown-body table th, .markdown-body table td { padding: 6px 13px; border: 1px solid #d1d9e0; }
.markdown-body table th { font-weight: 600; }
.markdown-body table tr:nth-child(2n) { background-color: #f6f8fa; }
.markdown-body .task-list-item { list-style-type: none; }
.markdown-body .task-list-item input { margin: 0 .2em .25em -1.4em; vertical-align: middle; }
"#;

/// Classless Pico styles: design variables on `:root` and element rules.
pub const PICO_CSS: &'static str = r#":root {
  --pico-font-family-sans-serif: system-ui, "Segoe UI", Roboto, Oxygen, Ubuntu, Cantarell, Helvetica, Arial, sans-serif;
  --pico-font-family-monospace: ui-monospace, SFMono-Regular, "SF Mono", Menlo, Consolas, monospace;
  --pico-font-family: var(--pico-font-family-sans-serif);
  --pico-line-height: 1.5;
  --pico-font-weight: 400;
  --pico-font-size: 100%;
  --pico-border-radius: 0.25rem;
  --pico-border-width: 0.0625rem;
  --pico-spacing: 1rem;
  --pico-typography-spacing-vertical: 1rem;
  --pico-background-color: #fff;
  --pico-color: #373c44;
  --pico-muted-color: #646b79;
  --pico-muted-border-color: #e7eaf0;
  --pico-primary: #0172ad;
  --pico-code-background-color: #f3f5f7;
  --pico-code-color: #646b79;
  --pico-table-border-color: #e7eaf0;
  --pico-mark-background-color: #fde7c0;
}
:where(:root) {
  -webkit-tap-highlight-color: transparent;
  -webkit-text-size-adjust: 100%;
  text-size-adjust: 100%;
  background-color: var(--pico-background-color);
  color: var(--pico-color);
  font-weight: var(--pico-font-weight);
  font-size: var(--pico-font-size);
  line-height: var(--pico-line-height);
  font-family: var(--pico-font-family);
  text-rendering: optimizeLegibility;
  overflow-wrap: break-word;
}
h1, h2, h3, h4, h5, h6 {
  margin-top: 0;
  margin-bottom: var(--pico-typography-spacing-vertical);
  color: #2d3138;
  font-weight: 700;
  line-height: 1.125;
}
h1 { font-size: 2rem; }
h2 { font-size: 1.75rem; }
h3 { font-size: 1.5rem; }
p, ol, ul, dl, blockquote, pre, table, hr {
  margin-top: 0;
  margin-bottom: var(--pico-typography-spacing-vertical);
}
a { color: var(--pico-primary); text-decoration: underline; }
blockquote {
  display: block;
  margin: var(--pico-typography-spacing-vertical) 0;
  padding: var(--pico-spacing);
  border-left: 0.25rem solid var(--pico-muted-border-color);
}
code, pre, kbd {
  border-radius: var(--pico-border-radius);
  background: var(--pico-code-background-color);
  color: var(--pico-code-color);
  font-family: var(--pico-font-family-monospace);
  font-size: 0.875em;
}
code { padding: 0.375rem; }
pre { display: block; padding: var(--pico-spacing); overflow-x: auto; }
pre > code { padding: 0; background: none; }
hr { height: 0; border: 0; border-top: 1px solid var(--pico-muted-border-color); color: inherit; }
table { width: 100%; border-collapse: collapse; border-spacing: 0; text-indent: 0; }
th, td { padding: calc(var(--pico-spacing) / 2) var(--pico-spacing); border-bottom: var(--pico-border-width) solid var(--pico-table-border-color); text-align: left; }
mark { padding: 0.125rem 0.25rem; background-color: var(--pico-mark-background-color); }
input[type="checkbox"] { margin-right: 0.5em; vertical-align: middle; }
"#;

/// Splendor: a serif, book-like reading style.
pub const SPLENDOR_CSS: &'static str = r#"html {
  font-size: 100%;
  overflow-y: scroll;
  -webkit-text-size-adjust: 100%;
  -ms-text-size-adjust: 100%;
}
body {
  color: #444;
  font-family: Merriweather, Georgia, Palatino, "Palatino Linotype", Times, "Times New Roman", serif;
  font-size: 12px;
  line-height: 1.7;
}
article {
  font-size: 1.5em;
}
a { color: #0645ad; text-decoration: none; }
a:hover { color: #06e; }
p { margin: 1em 0; }
h1, h2, h3, h4, h5, h6 {
  color: #111;
  line-height: 125%;
  margin-top: 2em;
  font-weight: normal;
}
h4, h5, h6 { font-weight: bold; }
h1 { font-size: 2.5em; }
h2 { font-size: 2em; }
h3 { font-size: 1.5em; }
blockquote {
  color: #666666;
  margin: 0;
  padding-left: 3em;
  border-left: 0.5em #EEE solid;
}
hr {
  display: block;
  height: 2px;
  border: 0;
  border-top: 1px solid #aaa;
  border-bottom: 1px solid #eee;
  margin: 1em 0;
  padding: 0;
}
pre, code, kbd, samp {
  color: #000;
  font-family: monospace, monospace;
  font-size: 0.98em;
}
pre { white-space: pre-wrap; word-wrap: break-word; }
b, strong { font-weight: bold; }
ul, ol { margin: 1em 0; padding: 0 0 0 2em; }
li p:last-child { margin-bottom: 0; }
table { border-collapse: collapse; border-spacing: 0; }
td { vertical-align: top; }
"#;

} // verus!
