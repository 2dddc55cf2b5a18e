//! Error and exit-code types shared by every stage of rendering.

use vstd::prelude::*;
use vstd::string::to_string_from_display_ensures;

verus! {

/// The standard library's I/O error, carried opaquely inside [`AppError`].
#[verifier::external_type_specification]
#[verifier::external_body]
pub struct ExIoError(std::io::Error);

/// The standard library's owned path, carried opaquely inside [`AppError`].
#[verifier::external_type_specification]
#[verifier::external_body]
pub struct ExPathBuf(std::path::PathBuf);

/// The process exit status that an error maps to.
#[derive(Debug, Clone, Copy, PartialEq, Eq, Structural)]
pub enum ExitCode {
    /// A failure while doing the work (status 1).
    Runtime,
    /// A mistake in how the tool was invoked (status 2).
    Usage,
}

/// The numeric status of each exit code.
pub open spec fn exit_status(code: ExitCode) -> i32 {
    match code {
        ExitCode::Runtime => 1,
        ExitCode::Usage => 2,
    }
}

impl From<ExitCode> for i32 {
    fn from(value: ExitCode) -> (status: i32) {
        match value {
            ExitCode::Runtime => 1,
            ExitCode::Usage => 2,
        }
    }
}

impl vstd::std_specs::convert::FromSpecImpl<ExitCode> for i32 {
    open spec fn obeys_from_spec() -> bool {
        true
    }

    open spec fn from_spec(value: ExitCode) -> i32 {
        exit_status(value)
    }
}

/// Every way in which rendering a document can fail.
#[derive(Debug)]
pub enum AppError {
    /// The command line was used wrongly; `message` says how.
    Usage { message: String },
    /// The Markdown file could not be read.
    ReadFile { path: std::path::PathBuf, source: std::io::Error },
    /// Standard input could not be read.
    ReadStdin(std::io::Error),
    /// The requested theme is not offered.
    UnsupportedTheme { theme: String },
    /// The directory of the output file could not be created.
    CreateOutputDir { path: std::path::PathBuf, source: std::io::Error },
    /// The PNG could not be written to its file.
    WriteOutput { path: std::path::PathBuf, source: std::io::Error },
    /// The PNG could not be written to standard output.
    WriteStdout(std::io::Error),
    /// The page could not be rendered.
    Render(String),
    /// A formula could not be typeset.
    MathRender(String),
    /// No Chrome/Chromium executable was found.
    BrowserNotFound,
    /// The chosen browser path does not exist.
    BrowserPathMissing { path: std::path::PathBuf },
    /// The chosen browser path is not an executable file.
    BrowserPathInvalid { path: std::path::PathBuf },
    /// The browser could not be started.
    BrowserLaunch { path: std::path::PathBuf, message: String },
    /// The temporary workspace could not be created.
    TempDir(std::io::Error),
}

/// The display text of a path, as `Path::display` writes it.  Nothing is
/// stated of the text.
#[verifier::external_body]
pub(crate) fn path_text(path: &std::path::PathBuf) -> String {
    format!("{}", path.display())
}

/// The text of an I/O error, as its `Display` writes it.
pub open spec fn io_text(error: std::io::Error, text: Seq<char>) -> bool {
    exists|s: String| s@ == text && to_string_from_display_ensures::<std::io::Error>(&error, s)
}

/// `prefix`, then a path's text, then `": "`, then an I/O error's text.
pub open spec fn path_io_message(prefix: Seq<char>, source: std::io::Error, msg: Seq<char>) -> bool {
    exists|p: Seq<char>, t: Seq<char>|
        io_text(source, t) && msg == prefix + p + ": "@ + t
}

/// `prefix`, then a path's text.
pub open spec fn path_message(prefix: Seq<char>, msg: Seq<char>) -> bool {
    exists|p: Seq<char>| msg == prefix + p
}

/// The message that an error is reported with.
pub open spec fn error_message(e: AppError, msg: Seq<char>) -> bool {
    match e {
        AppError::Usage { message } => msg == message@,
        AppError::ReadFile { source, .. } => path_io_message(
            "failed to read markdown file "@,
            source,
            msg,
        ),
        AppError::ReadStdin(source) => exists|t: Seq<char>|
            io_text(source, t) && msg == "failed to read markdown from stdin: "@ + t,
        AppError::UnsupportedTheme { theme } => msg == "unsupported theme `"@ + theme@
            + "`. Only `default` is available in v1."@,
        AppError::CreateOutputDir { source, .. } => path_io_message(
            "failed to create output directory "@,
            source,
            msg,
        ),
        AppError::WriteOutput { source, .. } => path_io_message(
            "failed to write PNG to "@,
            source,
            msg,
        ),
        AppError::WriteStdout(source) => exists|t: Seq<char>|
            io_text(source, t) && msg == "failed to write PNG to stdout: "@ + t,
        AppError::Render(detail) => msg == "failed to render markdown: "@ + detail@,
        AppError::MathRender(detail) => msg == "failed to render LaTeX formula: "@ + detail@,
        AppError::BrowserNotFound => msg == BROWSER_NOT_FOUND_MESSAGE@,
        AppError::BrowserPathMissing { .. } => path_message(
            "browser path does not exist: "@,
            msg,
        ),
        AppError::BrowserPathInvalid { .. } => path_message(
            "browser path is not executable: "@,
            msg,
        ),
        AppError::BrowserLaunch { message, .. } => exists|p: Seq<char>|
            msg == "failed to launch Chrome/Chromium at "@ + p + ": "@ + message@,
        AppError::TempDir(source) => exists|t: Seq<char>|
            io_text(source, t) && msg == "failed to create temporary render workspace: "@ + t,
    }
}

/// What is reported when no browser can be found.
pub const BROWSER_NOT_FOUND_MESSAGE: &'static str =
    "could not find Chrome/Chromium. Install Chrome/Chromium, or pass `--browser <PATH>`, or set `MD2IMAGE_BROWSER`.";

/// `a`, then `b`.
fn concat2(a: &str, b: &str) -> (s: String)
    ensures
        s@ == a@ + b@,
{
    let mut s = String::new();
    s.append(a);
    s.append(b);
    assert(s@ =~= a@ + b@);
    s
}

/// `a`, then `b`, then `c`, then `d`.
fn concat4(a: &str, b: &str, c: &str, d: &str) -> (s: String)
    ensures
        s@ == a@ + b@ + c@ + d@,
{
    let mut s = String::new();
    s.append(a);
    s.append(b);
    s.append(c);
    s.append(d);
    s
}

/// The exit code of an error: `Usage` for usage mistakes, `Runtime` for
/// every other failure.
pub open spec fn exit_code_of(e: AppError) -> ExitCode {
    if e is Usage {
        ExitCode::Usage
    } else {
        ExitCode::Runtime
    }
}

/// A usage mistake makes the process exit with status 2, every other
/// failure with status 1.
pub proof fn errors_exit_with_their_status(e: AppError)
    ensures
        exit_status(exit_code_of(e)) == (if e is Usage {
            2i32
        } else {
            1i32
        }),
{
}

impl AppError {
    /// The exit code of an error: usage mistakes exit with `Usage`, all
    /// other failures with `Runtime`.
    pub fn exit_code(&self) -> (code: ExitCode)
        ensures
            code == exit_code_of(*self),
    {
        match self {
            AppError::Usage { .. } => ExitCode::Usage,
            _ => ExitCode::Runtime,
        }
    }

    /// The message that the error is reported with.
    pub fn message(&self) -> (msg: String)
        ensures
            error_message(*self, msg@),
    {
        match self {
            AppError::Usage { message } => message.clone(),
            AppError::ReadFile { path, source } => {
                let t = source.to_string();
                let p = path_text(path);
                let m = concat4("failed to read markdown file ", p.as_str(), ": ", t.as_str());
                assert(io_text(*source, t@));
                proof {
                    let ghost mv = m@;
                    assert(m@ == "failed to read markdown file "@ + p@ + ": "@ + t@);
                    assert(path_io_message("failed to read markdown file "@, *source, mv));
                }
                m
            },
            AppError::ReadStdin(source) => {
                let t = source.to_string();
                assert(io_text(*source, t@));
                concat2("failed to read markdown from stdin: ", t.as_str())
            },
            AppError::UnsupportedTheme { theme } => {
                let s = concat2("unsupported theme `", theme.as_str());
                concat2(s.as_str(), "`. Only `default` is available in v1.")
            },
            AppError::CreateOutputDir { path, source } => {
                let t = source.to_string();
                let p = path_text(path);
                let m = concat4("failed to create output directory ", p.as_str(), ": ", t.as_str());
                assert(io_text(*source, t@));
                proof {
                    let ghost mv = m@;
                    assert(m@ == "failed to create output directory "@ + p@ + ": "@ + t@);
                    assert(path_io_message("failed to create output directory "@, *source, mv));
                }
                m
            },
            AppError::WriteOutput { path, source } => {
                let t = source.to_string();
                let p = path_text(path);
                let m = concat4("failed to write PNG to ", p.as_str(), ": ", t.as_str());
                assert(io_text(*source, t@));
                proof {
                    let ghost mv = m@;
                    assert(m@ == "failed to write PNG to "@ + p@ + ": "@ + t@);
                    assert(path_io_message("failed to write PNG to "@, *source, mv));
                }
                m
            },
            AppError::WriteStdout(source) => {
                let t = source.to_string();
                assert(io_text(*source, t@));
                concat2("failed to write PNG to stdout: ", t.as_str())
            },
            AppError::Render(detail) => concat2("failed to render markdown: ", detail.as_str()),
            AppError::MathRender(detail) => concat2(
                "failed to render LaTeX formula: ",
                detail.as_str(),
            ),
            AppError::BrowserNotFound => BROWSER_NOT_FOUND_MESSAGE.to_owned(),
            AppError::BrowserPathMissing { path } => {
                let p = path_text(path);
                let m = concat2("browser path does not exist: ", p.as_str());
                assert(m@ == "browser path does not exist: "@ + p@);
                m
            },
            AppError::BrowserPathInvalid { path } => {
                let p = path_text(path);
                let m = concat2("browser path is not executable: ", p.as_str());
                assert(m@ == "browser path is not executable: "@ + p@);
                m
            },
            AppError::BrowserLaunch { path, message } => {
                let p = path_text(path);
                let m = concat4(
                    "failed to launch Chrome/Chromium at ",
                    p.as_str(),
                    ": ",
                    message.as_str(),
                );
                assert(m@ == "failed to launch Chrome/Chromium at "@ + p@ + ": "@ + message@);
                m
            },
            AppError::TempDir(source) => {
                let t = source.to_string();
                assert(io_text(*source, t@));
                concat2("failed to create temporary render workspace: ", t.as_str())
            },
        }
    }
}

} // verus!
