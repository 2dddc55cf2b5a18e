//! Where the Markdown comes from: a file or piped standard input.

use vstd::prelude::*;

use crate::error::AppError;
use crate::text::{is_blank, is_blank_str};

verus! {

/// What is reported when neither a file nor piped input gives Markdown.
pub const NO_INPUT_MESSAGE: &'static str =
    "no input provided. Pass `INPUT` or pipe Markdown into stdin.\n\nUsage: md2image [INPUT] -o <PATH>";

/// Whether `e` is the usage error for missing input.
pub open spec fn is_no_input_error(e: AppError) -> bool {
    e matches AppError::Usage { message } && message@ == NO_INPUT_MESSAGE@
}

/// The usage error for missing input.
pub fn no_input_error() -> (e: AppError)
    ensures
        is_no_input_error(e),
{
    AppError::Usage { message: NO_INPUT_MESSAGE.to_owned() }
}

/// Decides on the Markdown read from standard input: `None` when standard
/// input is a terminal (nothing was piped), else the text that was read.
/// Input that is missing or holds only white space is refused.
pub fn markdown_from_stdin(piped: Option<String>) -> (r: Result<String, AppError>)
    ensures
        match piped {
            None => r matches Err(e) && is_no_input_error(e),
            Some(text) => if is_blank(text@) {
                r matches Err(e) && is_no_input_error(e)
            } else {
                r == Ok::<String, AppError>(text)
            },
        },
{
    match piped {
        None => Err(no_input_error()),
        Some(text) => {
            if is_blank_str(text.as_str()) {
                Err(no_input_error())
            } else {
                Ok(text)
            }
        },
    }
}

} // verus!
