use wasmerenv::error::Error;
use wasmerenv::release::Release;
use wasmerenv::release::ReleaseAsset;
use wasmerenv::resolve::check_release_already_installed;
use wasmerenv::resolve::release_to_install;
use wasmerenv::resolve::resolve;
use wasmerenv::version::Constraint;
use wasmerenv::version::Version;

fn release(tag: &str, prerelease: bool) -> Release {
    Release {
        tag_name: tag.to_string(),
        prerelease,
        published_at: "2023-01-15T10:30:00Z".to_string(),
        assets: vec![ReleaseAsset {
            name: "wasmer-linux-amd64.tar.gz".to_string(),
            browser_download_url: format!("https://example.invalid/{tag}/down"),
        }],
    }
}

fn catalog() -> Vec<Release> {
    vec![
        release("v3.0.0", false),
        release("v2.5.0", false),
        release("v2.0.0", false),
    ]
}

#[test]
fn absent_constraint_resolves_to_the_first_entry() {
    let picked = resolve(&None, catalog()).unwrap();
    assert_eq!(picked.tag_name, "v3.0.0");
}

#[test]
fn constraint_resolves_to_first_match_not_highest() {
    // catalog = [v3.0.0, v2.5.0, v2.0.0], constraint = ^2.0.0, prerelease
    // disallowed: the first match in the given order wins.
    let constraint = Some(Constraint::parse("^2.0.0").unwrap());
    let picked = release_to_install(&constraint, false, catalog()).unwrap();
    assert_eq!(picked.tag_name, "v2.5.0");
}

#[test]
fn no_matching_release_resolves_to_none() {
    let constraint = Some(Constraint::parse("^9.0.0").unwrap());
    assert!(release_to_install(&constraint, false, catalog()).is_none());
}

#[test]
fn empty_catalog_resolves_to_none() {
    assert!(resolve(&None, Vec::new()).is_none());
}

#[test]
fn prereleases_are_skipped_unless_allowed() {
    let releases = vec![
        release("v3.0.0-beta.1", true),
        release("v2.5.0", false),
    ];
    let picked = release_to_install(&None, false, releases).unwrap();
    assert_eq!(picked.tag_name, "v2.5.0");

    let releases = vec![
        release("v3.0.0-beta.1", true),
        release("v2.5.0", false),
    ];
    let picked = release_to_install(&None, true, releases).unwrap();
    assert_eq!(picked.tag_name, "v3.0.0-beta.1");
}

#[test]
fn releases_with_unparsable_tags_never_match_a_constraint() {
    let releases = vec![release("nightly", false), release("v2.0.0", false)];
    let constraint = Some(Constraint::parse(">=1.0.0").unwrap());
    let picked = release_to_install(&constraint, false, releases).unwrap();
    assert_eq!(picked.tag_name, "v2.0.0");
}

#[test]
fn already_installed_version_is_refused() {
    let rel = release("v2.5.0", false);
    let current = Some(Version::parse("2.5.0").unwrap());
    let result = check_release_already_installed(&rel, &current);
    let err = result.unwrap_err();
    assert!(matches!(err, Error::AlreadyInstalled { .. }));
    assert_eq!(
        err.message(),
        "You're already using wasmer 2.5.0, which is the latest version."
    );
}

#[test]
fn different_or_absent_current_version_is_accepted() {
    let rel = release("v2.5.0", false);
    let current = Some(Version::parse("2.0.0").unwrap());
    assert!(check_release_already_installed(&rel, &current).is_ok());
    assert!(check_release_already_installed(&rel, &None).is_ok());
}

#[test]
fn release_accessors_find_the_platform_asset() {
    let rel = release("v2.5.0", false);
    assert_eq!(rel.version().unwrap().text(), "2.5.0");
    assert_eq!(
        rel.download_url("linux", "x86_64").unwrap(),
        "https://example.invalid/v2.5.0/down"
    );
    assert_eq!(
        rel.filename("linux", "x86_64").unwrap(),
        "2.5.0-wasmer-linux-amd64.tar.gz"
    );
    assert!(rel.download_url("linux", "aarch64").is_none());
}
