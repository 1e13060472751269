use zed_stylelint::{
    Action, ArchiveFormat, Cache, DownloadError, Event, InstallStatus, Installation, LspConfig,
    LspDownloader, StylelintExtension,
};

/// What the outside world answers in one scripted run.
struct World {
    script_before_fetch: bool,
    script_after_fetch: bool,
    fetch: Result<(), String>,
    listing: Result<Vec<String>, String>,
    removal_failures: usize,
}

struct Trace {
    statuses: Vec<InstallStatus>,
    probes: Vec<String>,
    fetches: Vec<(String, String, ArchiveFormat)>,
    listed: Vec<String>,
    removed: Vec<Vec<String>>,
    outcome: Result<String, DownloadError>,
}

fn config(version: &str) -> LspConfig {
    LspConfig {
        extension_version: version.to_string(),
        lsp_version: version.to_string(),
        github_repo: "a/b".to_string(),
    }
}

fn drive(mut inst: Installation, mut action: Action, world: World) -> Trace {
    let mut statuses = Vec::new();
    let mut probes = Vec::new();
    let mut fetches = Vec::new();
    let mut listed = Vec::new();
    let mut removed = Vec::new();
    let mut fetched = false;
    loop {
        let event = match action {
            Action::Report { status } => {
                statuses.push(status);
                Event::Reported
            }
            Action::ProbeScript { path } => {
                probes.push(path);
                let is_file = if fetched { world.script_after_fetch } else { world.script_before_fetch };
                Event::Probed { is_file }
            }
            Action::Fetch { url, destination, format } => {
                fetches.push((url, destination, format));
                fetched = true;
                Event::Fetched { fetch: world.fetch.clone() }
            }
            Action::ListVersions { dir } => {
                listed.push(dir);
                Event::Listed { listing: world.listing.clone() }
            }
            Action::RemoveDirs { dirs } => {
                removed.push(dirs);
                Event::Removed { failures: world.removal_failures }
            }
            Action::Finish { outcome } => {
                assert!(inst.is_finished());
                return Trace { statuses, probes, fetches, listed, removed, outcome };
            }
        };
        assert!(inst.accepts(&event));
        let (next, next_action) = inst.step(event);
        inst = next;
        action = next_action;
    }
}

fn start(version: &str) -> (Installation, Action) {
    let cache = Cache::new(version, "/work".to_string());
    LspDownloader::new(config(version)).begin(cache)
}

const URL: &str = "https://github.com/a/b/releases/download/2.0.2/stylelint-language-server-v2.0.2.zip";
const SCRIPT: &str = "/work/lsp-cache/2.0.2/dist/start-server.js";

#[test]
fn cache_hit_returns_path_without_fetching() {
    let (inst, action) = start("2.0.2");
    let world = World {
        script_before_fetch: true,
        script_after_fetch: true,
        fetch: Err("must not be fetched".to_string()),
        listing: Ok(vec!["1.0.0".to_string()]),
        removal_failures: 0,
    };
    let trace = drive(inst, action, world);
    assert_eq!(trace.outcome.unwrap(), SCRIPT);
    assert!(trace.fetches.is_empty());
    assert!(trace.listed.is_empty());
    assert!(trace.removed.is_empty());
    assert_eq!(trace.statuses, vec![InstallStatus::CheckingForUpdate, InstallStatus::Idle]);
    assert_eq!(trace.probes, vec!["lsp-cache/2.0.2/dist/start-server.js".to_string()]);
}

#[test]
fn fresh_install_fetches_verifies_and_cleans_up() {
    let (inst, action) = start("2.0.2");
    let world = World {
        script_before_fetch: false,
        script_after_fetch: true,
        fetch: Ok(()),
        listing: Ok(vec!["1.0.0".to_string(), "2.0.2".to_string()]),
        removal_failures: 0,
    };
    let trace = drive(inst, action, world);
    assert_eq!(trace.outcome.unwrap(), SCRIPT);
    assert_eq!(
        trace.fetches,
        vec![(URL.to_string(), "lsp-cache/2.0.2/dist".to_string(), ArchiveFormat::Zip)]
    );
    assert_eq!(trace.probes.len(), 2);
    assert_eq!(trace.listed, vec!["lsp-cache".to_string()]);
    assert_eq!(trace.removed, vec![vec!["lsp-cache/1.0.0".to_string()]]);
    assert_eq!(
        trace.statuses,
        vec![InstallStatus::CheckingForUpdate, InstallStatus::Downloading, InstallStatus::Idle]
    );
}

#[test]
fn empty_extraction_fails_with_extraction_error() {
    let (inst, action) = start("2.0.2");
    let world = World {
        script_before_fetch: false,
        script_after_fetch: false,
        fetch: Ok(()),
        listing: Ok(vec!["1.0.0".to_string()]),
        removal_failures: 0,
    };
    let trace = drive(inst, action, world);
    match trace.outcome {
        Err(DownloadError::Extraction { message }) => assert_eq!(
            message,
            "Server file not found at lsp-cache/2.0.2/dist/start-server.js after extraction"
        ),
        other => panic!("expected an extraction error, got {:?}", other),
    }
    assert!(trace.removed.is_empty());
}

#[test]
fn network_failure_carries_url_and_message() {
    let (inst, action) = start("2.0.2");
    let world = World {
        script_before_fetch: false,
        script_after_fetch: false,
        fetch: Err("connection refused".to_string()),
        listing: Ok(Vec::new()),
        removal_failures: 0,
    };
    let trace = drive(inst, action, world);
    match trace.outcome {
        Err(DownloadError::Network { url, message }) => {
            assert_eq!(url, URL);
            assert_eq!(message, "connection refused");
        }
        other => panic!("expected a network error, got {:?}", other),
    }
    assert_eq!(trace.probes.len(), 1);
    assert!(trace.listed.is_empty());
}

#[test]
fn failed_listing_still_returns_path() {
    let (inst, action) = start("2.0.2");
    let world = World {
        script_before_fetch: false,
        script_after_fetch: true,
        fetch: Ok(()),
        listing: Err("permission denied".to_string()),
        removal_failures: 0,
    };
    let trace = drive(inst, action, world);
    assert_eq!(trace.outcome.unwrap(), SCRIPT);
    assert!(trace.removed.is_empty());
}

#[test]
fn failed_removal_still_returns_path() {
    let (inst, action) = start("2.0.2");
    let world = World {
        script_before_fetch: false,
        script_after_fetch: true,
        fetch: Ok(()),
        listing: Ok(vec!["1.0.0".to_string(), "1.5.0".to_string(), "2.0.2".to_string()]),
        removal_failures: 2,
    };
    let trace = drive(inst, action, world);
    assert_eq!(trace.outcome.unwrap(), SCRIPT);
    assert_eq!(
        trace.removed,
        vec![vec!["lsp-cache/1.0.0".to_string(), "lsp-cache/1.5.0".to_string()]]
    );
}

#[test]
fn download_half_starts_by_reporting_downloading() {
    let cache = Cache::new("2.0.2", "/work".to_string());
    let (inst, action) = LspDownloader::new(config("2.0.2")).download_and_verify(cache);
    assert!(matches!(action, Action::Report { status: InstallStatus::Downloading }));
    let (_, next) = inst.step(Event::Reported);
    match next {
        Action::Fetch { url, destination, format } => {
            assert_eq!(url, URL);
            assert_eq!(destination, "lsp-cache/2.0.2/dist");
            assert_eq!(format, ArchiveFormat::Zip);
        }
        other => panic!("expected a fetch, got {:?}", other),
    }
}

#[test]
fn machine_refuses_events_it_does_not_wait_for() {
    let (inst, _) = start("2.0.2");
    assert!(inst.accepts(&Event::Reported));
    assert!(!inst.accepts(&Event::Probed { is_file: true }));
    assert!(!inst.accepts(&Event::Fetched { fetch: Ok(()) }));
}

#[test]
fn download_error_messages() {
    let network = DownloadError::Network { url: "u".to_string(), message: "m".to_string() };
    assert_eq!(network.message(), "Failed to download from u: m");
    let extraction = DownloadError::Extraction { message: "gone".to_string() };
    assert_eq!(extraction.message(), "Failed to extract language server: gone");
}

#[test]
fn extension_keeps_its_first_configuration() {
    let mut ext = StylelintExtension::new();
    assert!(!ext.has_config());
    let (_, action) = ext.server_script_path(config("2.0.2"), "/work".to_string());
    assert!(matches!(action, Action::Report { status: InstallStatus::CheckingForUpdate }));
    assert!(ext.has_config());
    let (inst, _) = ext.server_script_path(config("3.0.0"), "/work".to_string());
    let (_, probe) = inst.step(Event::Reported);
    match probe {
        Action::ProbeScript { path } => assert_eq!(path, "lsp-cache/2.0.2/dist/start-server.js"),
        other => panic!("expected a probe, got {:?}", other),
    }
    let fresh = StylelintExtension::default();
    assert!(!fresh.has_config());
}
