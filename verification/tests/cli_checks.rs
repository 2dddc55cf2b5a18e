use md2image::app::validate_cli;
use md2image::{AppError, ExitCode};

fn valid_multiplier(value: f64) -> bool {
    value.is_finite() && value >= 1.0
}

#[test]
fn rejects_unknown_theme() {
    let error = validate_cli("dark", 960, valid_multiplier(1.0), valid_multiplier(1.0))
        .expect_err("dark is not offered");
    assert_eq!(i32::from(error.exit_code()), 1);
    assert!(error.message().contains("unsupported theme"));
}

#[test]
fn rejects_invalid_scale() {
    let error = validate_cli("default", 960, valid_multiplier(0.0), valid_multiplier(1.0))
        .expect_err("scale 0 is refused");
    assert_eq!(i32::from(error.exit_code()), 2);
    assert!(error
        .message()
        .contains("`--scale` must be a finite number greater than or equal to 1"));
}

#[test]
fn rejects_invalid_supersample() {
    let error = validate_cli("default", 960, valid_multiplier(1.0), valid_multiplier(0.0))
        .expect_err("supersample 0 is refused");
    assert_eq!(i32::from(error.exit_code()), 2);
    assert!(error
        .message()
        .contains("`--supersample` must be a finite number greater than or equal to 1"));
}

#[test]
fn rejects_zero_width() {
    let error = validate_cli("default", 0, true, true).expect_err("width 0 is refused");
    assert!(matches!(error, AppError::Usage { ref message } if message == "`--width` must be greater than 0."));
}

#[test]
fn theme_is_checked_before_the_numbers() {
    let error = validate_cli("pico", 0, false, false).expect_err("pico is not accepted here");
    assert!(matches!(error, AppError::UnsupportedTheme { ref theme } if theme == "pico"));
    assert_eq!(error.exit_code(), ExitCode::Runtime);
}

#[test]
fn accepts_valid_settings() {
    assert!(validate_cli("default", 960, valid_multiplier(2.0), valid_multiplier(1.5)).is_ok());
    assert!(!valid_multiplier(f64::NAN));
    assert!(!valid_multiplier(f64::INFINITY));
}
