# md2image

`md2image` renders Markdown to a single tall PNG with a local headless
Chrome/Chromium.

## Layout

- `src/` is the verified library (Verus):
  - `html.rs`, `themes.rs`: the page template, the themes and the article
    column width; `build_html` is specified character by character.
  - `katex.rs`: where the page expects the KaTeX files, staged next to the
    document, and the script that typesets its formulas offline with them.
    This tree ships no KaTeX files, so the program stages none and formulas
    stay as written until they are supplied.
  - `markdown.rs`: Markdown to HTML through `pulldown-cmark`, with the
    extensions the tool enables.
  - `render.rs`: how a tall page is cut into screenshot slices, how the
    browser's answers and failures are read.
  - `stitch.rs`: decoding, resizing and pasting screenshot slices into one
    image and encoding it, through the `image` crate.
  - `browser.rs`: the order in which a browser executable is searched for and
    how a candidate path is judged.
  - `app.rs`, `input.rs`: checks of the command line and of piped input.
  - `error.rs`: errors, their messages and exit codes.
  - `text.rs`: character and string helpers (white space, trimming, search,
    decimal numerals).
- `app/` is the command-line program: argument parsing, file and terminal
  I/O, the browser session and the floating-point scaling.
- `tests/` exercises the library.
