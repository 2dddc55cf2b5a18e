use std::path::{Path, PathBuf};

use md2image::browser::{
    browser_search_order, path_binaries, platform_candidates, validate_browser_path,
    BrowserSource, PathProbe, Platform,
};
use md2image::AppError;

fn probe(path: &Path) -> PathProbe {
    PathProbe {
        exists: path.exists(),
        is_file: path.is_file(),
        executable: path.is_file(),
    }
}

fn resolve_given(path: &Path) -> Result<PathBuf, AppError> {
    let plan = browser_search_order(Some(path.to_path_buf()), None, Platform::Linux);
    assert_eq!(plan.len(), 1);
    match plan.into_iter().next() {
        Some(BrowserSource::Given(given)) => {
            let facts = probe(&given);
            validate_browser_path(given, facts)
        }
        _ => panic!("an explicit browser path should be checked first"),
    }
}

#[test]
fn platform_candidates_are_present() {
    let candidates = platform_candidates(Platform::Linux);
    assert!(!candidates.is_empty());
    assert!(!platform_candidates(Platform::MacOs).is_empty());
    assert!(!platform_candidates(Platform::Windows).is_empty());
}

#[test]
fn missing_browser_override_is_reported() {
    let error = resolve_given(Path::new("/definitely/missing/browser"))
        .expect_err("browser should be missing");

    assert!(matches!(error, AppError::BrowserPathMissing { .. }));
}

#[test]
fn missing_browser_override_returns_clear_error() {
    let error = resolve_given(Path::new("/definitely/missing/browser"))
        .expect_err("expected missing browser");

    assert!(matches!(error, AppError::BrowserPathMissing { .. }));
}

#[test]
fn other_platforms_have_no_candidates() {
    assert!(platform_candidates(Platform::Other).is_empty());
}

#[test]
fn linux_candidates_in_order() {
    assert_eq!(
        platform_candidates(Platform::Linux),
        vec![
            "/usr/bin/google-chrome",
            "/usr/bin/google-chrome-stable",
            "/usr/bin/chromium",
            "/usr/bin/chromium-browser",
        ]
    );
}

#[test]
fn command_line_override_wins_over_environment() {
    let plan = browser_search_order(
        Some(PathBuf::from("/cli/chrome")),
        Some(PathBuf::from("/env/chrome")),
        Platform::Linux,
    );
    assert_eq!(plan.len(), 1);
    assert!(matches!(&plan[0], BrowserSource::Given(p) if p == Path::new("/cli/chrome")));
}

#[test]
fn environment_wins_over_search() {
    let plan = browser_search_order(None, Some(PathBuf::from("/env/chrome")), Platform::MacOs);
    assert_eq!(plan.len(), 1);
    assert!(matches!(&plan[0], BrowserSource::Given(p) if p == Path::new("/env/chrome")));
}

#[test]
fn search_tries_install_locations_then_path() {
    let plan = browser_search_order(None, None, Platform::Windows);
    assert_eq!(plan.len(), 3 + 5);
    assert!(matches!(
        plan[0],
        BrowserSource::Candidate("C:\\Program Files\\Google\\Chrome\\Application\\chrome.exe")
    ));
    assert!(matches!(plan[3], BrowserSource::OnPath("google-chrome")));
    assert!(matches!(plan[7], BrowserSource::OnPath("chrome")));
    assert_eq!(
        path_binaries(),
        vec!["google-chrome", "google-chrome-stable", "chromium", "chromium-browser", "chrome"]
    );
}

#[test]
fn validation_checks_existence_then_kind() {
    let p = PathBuf::from("/x");
    let missing = PathProbe { exists: false, is_file: false, executable: false };
    assert!(matches!(
        validate_browser_path(p.clone(), missing),
        Err(AppError::BrowserPathMissing { .. })
    ));
    let dir = PathProbe { exists: true, is_file: false, executable: true };
    assert!(matches!(
        validate_browser_path(p.clone(), dir),
        Err(AppError::BrowserPathInvalid { .. })
    ));
    let not_exec = PathProbe { exists: true, is_file: true, executable: false };
    assert!(matches!(
        validate_browser_path(p.clone(), not_exec),
        Err(AppError::BrowserPathInvalid { .. })
    ));
    let ok = PathProbe { exists: true, is_file: true, executable: true };
    assert_eq!(validate_browser_path(p.clone(), ok).unwrap(), p);
}
