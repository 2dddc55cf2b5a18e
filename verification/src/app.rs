//! Checks on the command line's settings before any work is done.

use vstd::prelude::*;

use crate::error::AppError;
use crate::text::str_equals;

verus! {

/// The only theme that the command line accepts.
pub const CLI_THEME: &'static str = "default";

/// What is reported for a zero page width.
pub const WIDTH_MESSAGE: &'static str = "`--width` must be greater than 0.";

/// What is reported for a scale that is not a finite number of at least 1.
pub const SCALE_MESSAGE: &'static str =
    "`--scale` must be a finite number greater than or equal to 1.";

/// What is reported for a supersampling factor that is not a finite number
/// of at least 1.
pub const SUPERSAMPLE_MESSAGE: &'static str =
    "`--supersample` must be a finite number greater than or equal to 1.";

/// Whether `e` is the usage error with message `msg`.
pub open spec fn is_usage_error(e: AppError, msg: Seq<char>) -> bool {
    e matches AppError::Usage { message } && message@ == msg
}

/// The outcome of checking the command line's settings: the theme must be
/// `default`, the width positive, and the scale and supersampling factor
/// (whose checks, on floating-point numbers, are given as `scale_ok` and
/// `supersample_ok`) valid; the first check that fails decides the error.
pub open spec fn cli_check(
    theme: Seq<char>,
    width: u32,
    scale_ok: bool,
    supersample_ok: bool,
    r: Result<(), AppError>,
) -> bool {
    if theme != CLI_THEME@ {
        r matches Err(AppError::UnsupportedTheme { theme: t }) && t@ == theme
    } else if width == 0 {
        r matches Err(e) && is_usage_error(e, WIDTH_MESSAGE@)
    } else if !scale_ok {
        r matches Err(e) && is_usage_error(e, SCALE_MESSAGE@)
    } else if !supersample_ok {
        r matches Err(e) && is_usage_error(e, SUPERSAMPLE_MESSAGE@)
    } else {
        r is Ok
    }
}

/// Only the `default` theme gets through the command line: the settings
/// pass exactly when the theme is `default`, the width positive and both
/// multipliers valid; any other theme is refused by name, before the
/// numbers are looked at; a zero width is refused before the multipliers.
pub proof fn only_the_default_theme_passes(
    theme: Seq<char>,
    width: u32,
    scale_ok: bool,
    supersample_ok: bool,
    r: Result<(), AppError>,
)
    requires
        cli_check(theme, width, scale_ok, supersample_ok, r),
    ensures
        r is Ok <==> (theme == "default"@ && width > 0 && scale_ok && supersample_ok),
        theme != "default"@ ==> (r matches Err(AppError::UnsupportedTheme { theme: t }) && t@
            == theme),
        theme == "default"@ && width == 0 ==> (r matches Err(AppError::Usage { message }) && message@
            == "`--width` must be greater than 0."@),
        r matches Err(e) && e is Usage ==> theme == "default"@,
{
}

/// Checks the command line's settings. `scale_ok` and `supersample_ok`
/// say whether the scale and the supersampling factor are finite and at
/// least 1.
pub fn validate_cli(theme: &str, width: u32, scale_ok: bool, supersample_ok: bool) -> (r: Result<
    (),
    AppError,
>)
    ensures
        cli_check(theme@, width, scale_ok, supersample_ok, r),
{
    if !str_equals(theme, CLI_THEME) {
        return Err(AppError::UnsupportedTheme { theme: theme.to_owned() });
    }
    if width == 0 {
        return Err(AppError::Usage { message: WIDTH_MESSAGE.to_owned() });
    }
    if !scale_ok {
        return Err(AppError::Usage { message: SCALE_MESSAGE.to_owned() });
    }
    if !supersample_ok {
        return Err(AppError::Usage { message: SUPERSAMPLE_MESSAGE.to_owned() });
    }
    Ok(())
}

} // verus!
