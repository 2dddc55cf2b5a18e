//! Markdown-to-PNG rendering: the verified core of `md2image`.
//!
//! The library holds the decisions of the tool: which theme and page layout
//! an HTML document gets, how the command line's values are checked, how a
//! browser executable is chosen, how a tall page is cut into screenshot
//! slices, and how errors are classified and reported.

pub mod error;
pub mod text;
pub mod themes;
pub mod katex;
pub mod html;
pub mod markdown;
pub mod input;
pub mod browser;
pub mod app;
pub mod render;
pub mod stitch;

pub use error::{AppError, ExitCode};
