use wasmerenv::cache::cache_path;
use wasmerenv::cache::ensure_cached_plan;
use wasmerenv::cache::CachePlan;
use wasmerenv::install::install_start;
use wasmerenv::install::install_step;
use wasmerenv::install::report;
use wasmerenv::install::InstallAction;
use wasmerenv::install::InstallConfig;
use wasmerenv::install::InstallEvent;
use wasmerenv::install::InstallState;
use wasmerenv::release::Release;
use wasmerenv::release::ReleaseAsset;
use wasmerenv::version::Constraint;
use wasmerenv::version::Version;

fn release(tag: &str, prerelease: bool) -> Release {
    Release {
        tag_name: tag.to_string(),
        prerelease,
        published_at: "2023-01-15T10:30:00Z".to_string(),
        assets: vec![ReleaseAsset {
            name: "wasmer-linux-amd64.tar.gz".to_string(),
            browser_download_url: format!("https://example.invalid/{tag}/down"),
        }],
    }
}

fn catalog() -> Vec<Release> {
    vec![
        release("v3.0.0", false),
        release("v2.5.0", false),
        release("v2.0.0", false),
    ]
}

fn config(constraint: Option<&str>) -> InstallConfig {
    InstallConfig {
        constraint: constraint.map(|c| Constraint::parse(c).unwrap()),
        allow_prerelease: false,
        data_root: "/data".to_string(),
        cache_root: "/cache".to_string(),
        os: "linux".to_string(),
        arch: "x86_64".to_string(),
    }
}

#[test]
fn already_active_version_short_circuits_without_mutation() {
    // `current` already points to v2.5.0 and `use ^2.0.0` is requested:
    // the machine stops after the probe and never asks for any action that
    // touches the filesystem.
    let cfg = config(Some("^2.0.0"));
    let (state, action) = install_start();
    assert!(matches!(action, InstallAction::FetchCatalog));
    let (state, action) = install_step(&cfg, state, InstallEvent::Catalog { releases: catalog() });
    assert!(matches!(action, Some(InstallAction::ProbeCurrent)));
    let probed = Some(Version::parse("2.5.0").unwrap());
    let (state, action) = install_step(&cfg, state, InstallEvent::Probed { current: probed });
    assert!(action.is_none());
    assert!(matches!(state, InstallState::AlreadyActive { .. }));
    assert_eq!(
        report(&state).unwrap(),
        "You're already using wasmer 2.5.0, which is the latest version."
    );
}

#[test]
fn failed_extraction_with_backup_reverts_to_old() {
    // Download succeeds, extraction fails, an `old` backup exists: the
    // machine restores the backup over `current` and ends reverted — a
    // warning, not a hard failure.
    let cfg = config(Some("^2.0.0"));
    let (state, _) = install_start();
    let (state, _) = install_step(&cfg, state, InstallEvent::Catalog { releases: catalog() });
    let (state, action) = install_step(&cfg, state, InstallEvent::Probed { current: None });
    assert!(matches!(action, Some(InstallAction::ReadInstalledTag { .. })));
    let (state, action) = install_step(&cfg, state, InstallEvent::InstalledTag { current: None });
    match &action {
        Some(InstallAction::CheckCache { path }) => {
            assert_eq!(path, "/cache/wasmerenv/2.5.0-wasmer-linux-amd64.tar.gz");
        }
        other => panic!("expected a cache check, got {other:?}"),
    }
    let (state, action) = install_step(&cfg, state, InstallEvent::CacheChecked { present: false });
    match &action {
        Some(InstallAction::DownloadArchive { url, path }) => {
            assert_eq!(url, "https://example.invalid/v2.5.0/down");
            assert_eq!(path, "/cache/wasmerenv/2.5.0-wasmer-linux-amd64.tar.gz");
        }
        other => panic!("expected a download, got {other:?}"),
    }
    let (state, action) = install_step(&cfg, state, InstallEvent::Downloaded);
    match &action {
        Some(InstallAction::Extract { archive, dest }) => {
            assert_eq!(archive, "/cache/wasmerenv/2.5.0-wasmer-linux-amd64.tar.gz");
            assert_eq!(dest, "/data/2.5.0");
        }
        other => panic!("expected an extraction, got {other:?}"),
    }
    let (state, action) =
        install_step(&cfg, state, InstallEvent::ExtractFailed { old_exists: true });
    match &action {
        Some(InstallAction::RestoreOld { old_dir, current_dir }) => {
            assert_eq!(old_dir, "/data/.wasmerenv/old");
            assert_eq!(current_dir, "/data/current");
        }
        other => panic!("expected a restore, got {other:?}"),
    }
    let (state, action) = install_step(&cfg, state, InstallEvent::Restored);
    assert!(action.is_none());
    assert!(matches!(state, InstallState::Reverted { .. }));
    assert_eq!(
        report(&state).unwrap(),
        "Failed to install wasmer. Reverting back to the old version."
    );
}

#[test]
fn failed_extraction_without_backup_fails_hard() {
    let cfg = config(Some("^2.0.0"));
    let (state, _) = install_start();
    let (state, _) = install_step(&cfg, state, InstallEvent::Catalog { releases: catalog() });
    let (state, _) = install_step(&cfg, state, InstallEvent::Probed { current: None });
    let (state, _) = install_step(&cfg, state, InstallEvent::InstalledTag { current: None });
    let (state, _) = install_step(&cfg, state, InstallEvent::CacheChecked { present: true });
    let (state, action) =
        install_step(&cfg, state, InstallEvent::ExtractFailed { old_exists: false });
    assert!(action.is_none());
    assert!(matches!(state, InstallState::Failed { .. }));
    assert_eq!(report(&state).unwrap(), "Failed to extract the wasmer archive");
}

#[test]
fn cached_archive_skips_the_download() {
    // With the archive pre-seeded in the cache, the machine goes straight
    // from the cache check to extraction: no download is ever requested.
    let cfg = config(None);
    let (state, _) = install_start();
    let (state, _) = install_step(&cfg, state, InstallEvent::Catalog { releases: catalog() });
    let (state, _) = install_step(&cfg, state, InstallEvent::Probed { current: None });
    let (state, action) = install_step(&cfg, state, InstallEvent::InstalledTag { current: None });
    match &action {
        Some(InstallAction::CheckCache { path }) => {
            assert_eq!(path, "/cache/wasmerenv/3.0.0-wasmer-linux-amd64.tar.gz");
        }
        other => panic!("expected a cache check, got {other:?}"),
    }
    let (_, action) = install_step(&cfg, state, InstallEvent::CacheChecked { present: true });
    assert!(matches!(action, Some(InstallAction::Extract { .. })));
}

#[test]
fn successful_run_installs_and_reports() {
    let cfg = config(None);
    let (state, _) = install_start();
    let (state, _) = install_step(&cfg, state, InstallEvent::Catalog { releases: catalog() });
    let (state, _) = install_step(&cfg, state, InstallEvent::Probed { current: None });
    let (state, _) = install_step(&cfg, state, InstallEvent::InstalledTag { current: None });
    let (state, action) = install_step(&cfg, state, InstallEvent::CacheChecked { present: true });
    assert!(matches!(action, Some(InstallAction::Extract { .. })));
    let (state, action) = install_step(&cfg, state, InstallEvent::Extracted);
    match &action {
        Some(InstallAction::Switch { version_dir, current_dir, version }) => {
            assert_eq!(version_dir, "/data/3.0.0");
            assert_eq!(current_dir, "/data/current");
            assert_eq!(version, "3.0.0");
        }
        other => panic!("expected a switchover, got {other:?}"),
    }
    let (state, action) = install_step(&cfg, state, InstallEvent::Switched);
    assert!(action.is_none());
    assert!(matches!(state, InstallState::Installed { .. }));
    assert_eq!(
        report(&state).unwrap(),
        "You are now using wasmer 3.0.0. You can run `wasmer --version` to check your version of wasmer."
    );
}

#[test]
fn already_installed_tag_short_circuits() {
    let cfg = config(None);
    let (state, _) = install_start();
    let (state, _) = install_step(&cfg, state, InstallEvent::Catalog { releases: catalog() });
    let (state, _) = install_step(&cfg, state, InstallEvent::Probed { current: None });
    let installed = Some(Version::parse("3.0.0").unwrap());
    let (state, action) =
        install_step(&cfg, state, InstallEvent::InstalledTag { current: installed });
    assert!(action.is_none());
    assert!(matches!(state, InstallState::AlreadyInstalled { .. }));
    assert_eq!(
        report(&state).unwrap(),
        "wasmer 3.0.0 is already installed, up to date."
    );
}

#[test]
fn unmatched_constraint_fails_with_not_found() {
    let cfg = config(Some("^9.9.9"));
    let (state, _) = install_start();
    let (state, action) =
        install_step(&cfg, state, InstallEvent::Catalog { releases: catalog() });
    assert!(action.is_none());
    assert!(matches!(state, InstallState::Failed { .. }));
    assert_eq!(report(&state).unwrap(), "Wasmer release `^9.9.9` was not found");
}

#[test]
fn empty_catalog_without_constraint_reports_latest_not_found() {
    let cfg = config(None);
    let (state, _) = install_start();
    let (state, _) = install_step(&cfg, state, InstallEvent::Catalog { releases: Vec::new() });
    assert_eq!(report(&state).unwrap(), "Wasmer release `latest` was not found");
}

#[test]
fn catalog_fetch_failure_is_a_network_error() {
    let cfg = config(None);
    let (state, _) = install_start();
    let (state, action) = install_step(&cfg, state, InstallEvent::CatalogFailed);
    assert!(action.is_none());
    assert_eq!(report(&state).unwrap(), "Could not fetch the list of wasmer releases");
}

#[test]
fn unsupported_platform_is_fatal() {
    let mut cfg = config(None);
    cfg.os = "solaris".to_string();
    cfg.arch = "sparc".to_string();
    let (state, _) = install_start();
    let (state, _) = install_step(&cfg, state, InstallEvent::Catalog { releases: catalog() });
    let (state, _) = install_step(&cfg, state, InstallEvent::Probed { current: None });
    let (state, action) = install_step(&cfg, state, InstallEvent::InstalledTag { current: None });
    assert!(action.is_none());
    assert_eq!(report(&state).unwrap(), "Unsupported architecture: solaris-sparc");
}

#[test]
fn failed_restore_is_a_filesystem_error() {
    let cfg = config(None);
    let (state, _) = install_start();
    let (state, _) = install_step(&cfg, state, InstallEvent::Catalog { releases: catalog() });
    let (state, _) = install_step(&cfg, state, InstallEvent::Probed { current: None });
    let (state, _) = install_step(&cfg, state, InstallEvent::InstalledTag { current: None });
    let (state, _) = install_step(&cfg, state, InstallEvent::CacheChecked { present: false });
    let (state, _) =
        install_step(&cfg, state, InstallEvent::DownloadFailed { old_exists: true });
    let (state, action) = install_step(&cfg, state, InstallEvent::RestoreFailed);
    assert!(action.is_none());
    assert_eq!(
        report(&state).unwrap(),
        "Could not update the current wasmer installation"
    );
}

#[test]
fn precondition_error_names_the_initialization_step() {
    assert_eq!(
        wasmerenv::error::Error::Precondition.message(),
        "Looks like you haven't initialized wasmerenv.\nrun `wasmerenv shell | source` to initialize it.\n"
    );
}

#[test]
fn cache_plan_downloads_only_when_absent() {
    assert!(matches!(ensure_cached_plan(false), CachePlan::Download));
    assert!(matches!(ensure_cached_plan(true), CachePlan::Reuse));
}

#[test]
fn cache_path_is_deterministic() {
    let a = cache_path("/cache", "2.5.0-wasmer-linux-amd64.tar.gz");
    let b = cache_path("/cache", "2.5.0-wasmer-linux-amd64.tar.gz");
    assert_eq!(a, b);
    assert_eq!(a, "/cache/wasmerenv/2.5.0-wasmer-linux-amd64.tar.gz");
}
