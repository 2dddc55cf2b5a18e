//! Finding the Chrome/Chromium executable to render with.

use vstd::prelude::*;

use std::path::PathBuf;

use crate::error::AppError;

verus! {

/// The environment variable that may name the browser executable.
pub const BROWSER_ENV: &'static str = "MD2IMAGE_BROWSER";

/// The operating system the tool runs on, as far as the browser search
/// cares.
#[derive(Debug, Clone, Copy, PartialEq, Eq, Structural)]
pub enum Platform {
    MacOs,
    Linux,
    Windows,
    Other,
}

/// The usual install locations of Chrome/Chromium on a platform, in the
/// order in which they are tried.
pub open spec fn candidate_paths(platform: Platform) -> Seq<Seq<char>> {
    match platform {
        Platform::MacOs => seq![
            "/Applications/Google Chrome.app/Contents/MacOS/Google Chrome"@,
            "/Applications/Chromium.app/Contents/MacOS/Chromium"@,
        ],
        Platform::Linux => seq![
            "/usr/bin/google-chrome"@,
            "/usr/bin/google-chrome-stable"@,
            "/usr/bin/chromium"@,
            "/usr/bin/chromium-browser"@,
        ],
        Platform::Windows => seq![
            "C:\\Program Files\\Google\\Chrome\\Application\\chrome.exe"@,
            "C:\\Program Files (x86)\\Google\\Chrome\\Application\\chrome.exe"@,
            "C:\\Program Files\\Chromium\\Application\\chrome.exe"@,
        ],
        Platform::Other => seq![],
    }
}

/// The executable names that are looked up on `PATH`, in order.
pub open spec fn path_binary_names() -> Seq<Seq<char>> {
    seq![
        "google-chrome"@,
        "google-chrome-stable"@,
        "chromium"@,
        "chromium-browser"@,
        "chrome"@,
    ]
}

/// The views of a list of strings.
pub open spec fn views(names: Seq<&'static str>) -> Seq<Seq<char>> {
    names.map_values(|n: &'static str| n@)
}

/// The usual install locations of Chrome/Chromium on `platform`.
pub fn platform_candidates(platform: Platform) -> (paths: Vec<&'static str>)
    ensures
        views(paths@) == candidate_paths(platform),
{
    let mut paths: Vec<&'static str> = Vec::new();
    match platform {
        Platform::MacOs => {
            paths.push("/Applications/Google Chrome.app/Contents/MacOS/Google Chrome");
            paths.push("/Applications/Chromium.app/Contents/MacOS/Chromium");
        },
        Platform::Linux => {
            paths.push("/usr/bin/google-chrome");
            paths.push("/usr/bin/google-chrome-stable");
            paths.push("/usr/bin/chromium");
            paths.push("/usr/bin/chromium-browser");
        },
        Platform::Windows => {
            paths.push("C:\\Program Files\\Google\\Chrome\\Application\\chrome.exe");
            paths.push("C:\\Program Files (x86)\\Google\\Chrome\\Application\\chrome.exe");
            paths.push("C:\\Program Files\\Chromium\\Application\\chrome.exe");
        },
        Platform::Other => {},
    }
    assert(views(paths@) =~= candidate_paths(platform));
    paths
}

/// The executable names that are looked up on `PATH`.
pub fn path_binaries() -> (names: Vec<&'static str>)
    ensures
        views(names@) == path_binary_names(),
{
    let names = vec![
        "google-chrome",
        "google-chrome-stable",
        "chromium",
        "chromium-browser",
        "chrome",
    ];
    assert(views(names@) =~= path_binary_names());
    names
}

/// One place where the browser may be, in search order.
pub enum BrowserSource {
    /// A path given explicitly (command line or environment): it is
    /// validated and the search ends there.
    Given(PathBuf),
    /// A usual install location: taken when it exists.
    Candidate(&'static str),
    /// An executable name: taken when it is found on `PATH`.
    OnPath(&'static str),
}

/// Whether `plan` is the order in which the browser is searched for: the
/// path given on the command line, else the one in the environment, else
/// every usual install location and then every name on `PATH`.
pub open spec fn is_search_order(
    cli_override: Option<PathBuf>,
    env_override: Option<PathBuf>,
    platform: Platform,
    plan: Seq<BrowserSource>,
) -> bool {
    match (cli_override, env_override) {
        (Some(p), _) => plan.len() == 1 && plan[0] == BrowserSource::Given(p),
        (None, Some(p)) => plan.len() == 1 && plan[0] == BrowserSource::Given(p),
        (None, None) => {
            let c = candidate_paths(platform);
            let b = path_binary_names();
            &&& plan.len() == c.len() + b.len()
            &&& forall|i: int|
                0 <= i < c.len() ==> (#[trigger] plan[i] matches BrowserSource::Candidate(s)
                    && s@ == c[i])
            &&& forall|i: int|
                0 <= i < b.len() ==> (#[trigger] plan[c.len() + i] matches BrowserSource::OnPath(
                    s,
                ) && s@ == b[i])
        },
    }
}

/// The places to look for the browser, in the order in which they are
/// tried.
pub fn browser_search_order(
    cli_override: Option<PathBuf>,
    env_override: Option<PathBuf>,
    platform: Platform,
) -> (plan: Vec<BrowserSource>)
    ensures
        is_search_order(cli_override, env_override, platform, plan@),
{
    let mut plan: Vec<BrowserSource> = Vec::new();
    match cli_override {
        Some(path) => {
            plan.push(BrowserSource::Given(path));
            return plan;
        },
        None => {},
    }
    match env_override {
        Some(path) => {
            plan.push(BrowserSource::Given(path));
            return plan;
        },
        None => {},
    }
    let candidates = platform_candidates(platform);
    let binaries = path_binaries();
    let ghost c = candidate_paths(platform);
    let ghost b = path_binary_names();
    for i in 0..candidates.len()
        invariant
            views(candidates@) == c,
            plan@.len() == i,
            forall|k: int|
                0 <= k < i ==> (#[trigger] plan@[k] matches BrowserSource::Candidate(s) && s@
                    == c[k]),
    {
        plan.push(BrowserSource::Candidate(candidates[i]));
        assert(candidates@[i as int]@ == views(candidates@)[i as int]);
    }
    for j in 0..binaries.len()
        invariant
            views(candidates@) == c,
            views(binaries@) == b,
            plan@.len() == c.len() + j,
            forall|k: int|
                0 <= k < c.len() ==> (#[trigger] plan@[k] matches BrowserSource::Candidate(s)
                    && s@ == c[k]),
            forall|k: int|
                0 <= k < j ==> (#[trigger] plan@[c.len() + k] matches BrowserSource::OnPath(s)
                    && s@ == b[k]),
    {
        plan.push(BrowserSource::OnPath(binaries[j]));
        assert(binaries@[j as int]@ == views(binaries@)[j as int]);
    }
    plan
}

/// Whether the `i`th place of a search is the install location `path`.
pub open spec fn tries_location(plan: Seq<BrowserSource>, i: int, path: Seq<char>) -> bool {
    plan[i] matches BrowserSource::Candidate(s) && s@ == path
}

/// Whether the `i`th place of a search is the name `name` on `PATH`.
pub open spec fn tries_on_path(plan: Seq<BrowserSource>, i: int, name: Seq<char>) -> bool {
    plan[i] matches BrowserSource::OnPath(s) && s@ == name
}

/// Whether places `from..from + 5` of a search are the browser names on
/// `PATH`, in order.
pub open spec fn tries_names_on_path(plan: Seq<BrowserSource>, from: int) -> bool {
    &&& tries_on_path(plan, from, "google-chrome"@)
    &&& tries_on_path(plan, from + 1, "google-chrome-stable"@)
    &&& tries_on_path(plan, from + 2, "chromium"@)
    &&& tries_on_path(plan, from + 3, "chromium-browser"@)
    &&& tries_on_path(plan, from + 4, "chrome"@)
}

/// Without an explicit path, the search tries each platform's usual install
/// locations, in order, and then the browser names on `PATH`: on macOS
/// Google Chrome.app then Chromium.app; on Linux `/usr/bin/google-chrome`,
/// `google-chrome-stable`, `chromium`, `chromium-browser`; on Windows the
/// Chrome installs under Program Files and Program Files (x86), then
/// Chromium; elsewhere only `PATH`. An explicit path is the only place tried.
pub proof fn search_tries_the_known_places(
    cli_override: Option<PathBuf>,
    env_override: Option<PathBuf>,
    platform: Platform,
    plan: Seq<BrowserSource>,
)
    requires
        is_search_order(cli_override, env_override, platform, plan),
    ensures
        cli_override matches Some(p) ==> plan == seq![BrowserSource::Given(p)],
        cli_override is None ==> (env_override matches Some(p) ==> plan == seq![
            BrowserSource::Given(p),
        ]),
        cli_override is None && env_override is None && platform == Platform::MacOs ==> {
            &&& plan.len() == 7
            &&& tries_location(
                plan,
                0,
                "/Applications/Google Chrome.app/Contents/MacOS/Google Chrome"@,
            )
            &&& tries_location(plan, 1, "/Applications/Chromium.app/Contents/MacOS/Chromium"@)
            &&& tries_names_on_path(plan, 2)
        },
        cli_override is None && env_override is None && platform == Platform::Linux ==> {
            &&& plan.len() == 9
            &&& tries_location(plan, 0, "/usr/bin/google-chrome"@)
            &&& tries_location(plan, 1, "/usr/bin/google-chrome-stable"@)
            &&& tries_location(plan, 2, "/usr/bin/chromium"@)
            &&& tries_location(plan, 3, "/usr/bin/chromium-browser"@)
            &&& tries_names_on_path(plan, 4)
        },
        cli_override is None && env_override is None && platform == Platform::Windows ==> {
            &&& plan.len() == 8
            &&& tries_location(
                plan,
                0,
                "C:\\Program Files\\Google\\Chrome\\Application\\chrome.exe"@,
            )
            &&& tries_location(
                plan,
                1,
                "C:\\Program Files (x86)\\Google\\Chrome\\Application\\chrome.exe"@,
            )
            &&& tries_location(
                plan,
                2,
                "C:\\Program Files\\Chromium\\Application\\chrome.exe"@,
            )
            &&& tries_names_on_path(plan, 3)
        },
        cli_override is None && env_override is None && platform == Platform::Other ==> {
            &&& plan.len() == 5
            &&& tries_names_on_path(plan, 0)
        },
{
    if cli_override is Some {
        assert(plan =~= seq![BrowserSource::Given(cli_override->0)]);
    } else if env_override is Some {
        assert(plan =~= seq![BrowserSource::Given(env_override->0)]);
    } else {
        let c = candidate_paths(platform);
        let b = path_binary_names();
        assert(plan[c.len() as int + 0] matches BrowserSource::OnPath(s) && s@ == b[0]);
        assert(plan[c.len() as int + 1] matches BrowserSource::OnPath(s) && s@ == b[1]);
        assert(plan[c.len() as int + 2] matches BrowserSource::OnPath(s) && s@ == b[2]);
        assert(plan[c.len() as int + 3] matches BrowserSource::OnPath(s) && s@ == b[3]);
        assert(plan[c.len() as int + 4] matches BrowserSource::OnPath(s) && s@ == b[4]);
        if c.len() > 0 {
            assert(plan[0] matches BrowserSource::Candidate(s) && s@ == c[0]);
        }
        if c.len() > 1 {
            assert(plan[1] matches BrowserSource::Candidate(s) && s@ == c[1]);
        }
        if c.len() > 2 {
            assert(plan[2] matches BrowserSource::Candidate(s) && s@ == c[2]);
        }
        if c.len() > 3 {
            assert(plan[3] matches BrowserSource::Candidate(s) && s@ == c[3]);
        }
    }
}

/// What the file system says of a browser path.
pub struct PathProbe {
    /// Something exists at the path.
    pub exists: bool,
    /// It is a regular file.
    pub is_file: bool,
    /// Its permissions let it be executed (always true where the platform
    /// has no execute permission bits).
    pub executable: bool,
}

/// Checks a browser path against what the file system says of it: it must
/// exist, be a file and be executable.
pub fn validate_browser_path(path: PathBuf, probe: PathProbe) -> (r: Result<PathBuf, AppError>)
    ensures
        !probe.exists ==> r == Err::<PathBuf, AppError>(AppError::BrowserPathMissing { path }),
        probe.exists && !(probe.is_file && probe.executable) ==> r == Err::<PathBuf, AppError>(
            AppError::BrowserPathInvalid { path },
        ),
        probe.exists && probe.is_file && probe.executable ==> r == Ok::<PathBuf, AppError>(path),
{
    if !probe.exists {
        return Err(AppError::BrowserPathMissing { path });
    }
    if !probe.is_file {
        return Err(AppError::BrowserPathInvalid { path });
    }
    if !probe.executable {
        return Err(AppError::BrowserPathInvalid { path });
    }
    Ok(path)
}

} // verus!
