use md2image::input::{markdown_from_stdin, no_input_error, NO_INPUT_MESSAGE};
use md2image::{AppError, ExitCode};

#[test]
fn rejects_missing_input() {
    let error = markdown_from_stdin(None).expect_err("a terminal gives no input");
    assert_eq!(error.exit_code(), ExitCode::Usage);
    assert!(error.message().contains("no input provided"));
}

#[test]
fn blank_stdin_is_refused() {
    for blank in ["", "   ", "\n\t \r\n", "\u{3000}\u{a0}"] {
        let error = markdown_from_stdin(Some(blank.to_string())).expect_err("blank input");
        assert!(matches!(error, AppError::Usage { ref message } if message == NO_INPUT_MESSAGE));
    }
}

#[test]
fn piped_markdown_is_kept_unchanged() {
    let text = "  # stdin\n\nhello\n".to_string();
    assert_eq!(markdown_from_stdin(Some(text.clone())).unwrap(), text);
}

#[test]
fn no_input_error_explains_usage() {
    let error = no_input_error();
    assert_eq!(
        error.message(),
        "no input provided. Pass `INPUT` or pipe Markdown into stdin.\n\nUsage: md2image [INPUT] -o <PATH>"
    );
    assert_eq!(i32::from(error.exit_code()), 2);
}
