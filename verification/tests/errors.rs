use std::path::PathBuf;

use md2image::{AppError, ExitCode};

#[test]
fn usage_errors_exit_with_usage_code() {
    let error = AppError::Usage { message: "bad".to_string() };
    assert_eq!(error.exit_code(), ExitCode::Usage);
    assert_eq!(i32::from(error.exit_code()), 2);
}

#[test]
fn other_errors_exit_with_runtime_code() {
    let errors = vec![
        AppError::Render("x".to_string()),
        AppError::BrowserNotFound,
        AppError::UnsupportedTheme { theme: "dark".to_string() },
        AppError::TempDir(std::io::Error::new(std::io::ErrorKind::Other, "no space")),
    ];
    for error in errors {
        assert_eq!(error.exit_code(), ExitCode::Runtime);
        assert_eq!(i32::from(error.exit_code()), 1);
    }
}

#[test]
fn messages_follow_the_error_kind() {
    assert_eq!(AppError::Usage { message: "say".to_string() }.message(), "say");
    assert_eq!(
        AppError::UnsupportedTheme { theme: "dark".to_string() }.message(),
        "unsupported theme `dark`. Only `default` is available in v1."
    );
    assert_eq!(
        AppError::Render("boom".to_string()).message(),
        "failed to render markdown: boom"
    );
    assert_eq!(
        AppError::MathRender("bad".to_string()).message(),
        "failed to render LaTeX formula: bad"
    );
    assert_eq!(
        AppError::BrowserNotFound.message(),
        "could not find Chrome/Chromium. Install Chrome/Chromium, or pass `--browser <PATH>`, or set `MD2IMAGE_BROWSER`."
    );
    assert_eq!(
        AppError::BrowserPathMissing { path: PathBuf::from("/a/b") }.message(),
        "browser path does not exist: /a/b"
    );
    assert_eq!(
        AppError::BrowserPathInvalid { path: PathBuf::from("/a/b") }.message(),
        "browser path is not executable: /a/b"
    );
    assert_eq!(
        AppError::BrowserLaunch { path: PathBuf::from("/c"), message: "died".to_string() }
            .message(),
        "failed to launch Chrome/Chromium at /c: died"
    );
}

#[test]
fn io_messages_name_the_path_and_cause() {
    let io = std::io::Error::new(std::io::ErrorKind::NotFound, "gone");
    let error = AppError::ReadFile { path: PathBuf::from("in.md"), source: io };
    assert_eq!(error.message(), "failed to read markdown file in.md: gone");
    let io = std::io::Error::new(std::io::ErrorKind::Other, "full");
    let error = AppError::WriteOutput { path: PathBuf::from("out.png"), source: io };
    assert_eq!(error.message(), "failed to write PNG to out.png: full");
    let io = std::io::Error::new(std::io::ErrorKind::Other, "denied");
    let error = AppError::CreateOutputDir { path: PathBuf::from("dir"), source: io };
    assert_eq!(error.message(), "failed to create output directory dir: denied");
    let io = std::io::Error::new(std::io::ErrorKind::Other, "closed");
    assert_eq!(
        AppError::ReadStdin(io).message(),
        "failed to read markdown from stdin: closed"
    );
    let io = std::io::Error::new(std::io::ErrorKind::Other, "pipe");
    assert_eq!(
        AppError::WriteStdout(io).message(),
        "failed to write PNG to stdout: pipe"
    );
    let io = std::io::Error::new(std::io::ErrorKind::Other, "tmp");
    assert_eq!(
        AppError::TempDir(io).message(),
        "failed to create temporary render workspace: tmp"
    );
}
