use wasmerenv::listing::list_rows;
use wasmerenv::release::Release;
use wasmerenv::release::ReleaseAsset;
use wasmerenv::version::Constraint;
use wasmerenv::version::Version;

fn release(tag: &str, prerelease: bool, published_at: &str) -> Release {
    Release {
        tag_name: tag.to_string(),
        prerelease,
        published_at: published_at.to_string(),
        assets: vec![ReleaseAsset {
            name: "wasmer-linux-amd64.tar.gz".to_string(),
            browser_download_url: "https://example.invalid/down".to_string(),
        }],
    }
}

fn catalog() -> Vec<Release> {
    vec![
        release("v3.0.0", false, "2023-03-01T09:00:00Z"),
        release("v2.5.0-rc.1", true, "2023-02-01T09:00:00Z"),
        release("v2.0.0", false, "2023-01-15T10:30:00Z"),
    ]
}

#[test]
fn listing_shows_oldest_first_with_displayed_times() {
    let rows = list_rows(&catalog(), &None, None, false, &None);
    assert_eq!(rows.len(), 3);
    assert_eq!(rows[0].version, "2.0.0");
    assert_eq!(rows[0].tags, "");
    assert_eq!(rows[0].published, "January 15 2023 10:30:00 AM");
    assert_eq!(rows[1].version, "2.5.0-rc.1");
    assert_eq!(rows[1].tags, "prerelease");
    assert_eq!(rows[2].version, "3.0.0");
}

#[test]
fn listing_count_keeps_only_the_newest_entries() {
    let rows = list_rows(&catalog(), &None, Some(2), false, &None);
    assert_eq!(rows.len(), 2);
    assert_eq!(rows[0].version, "2.5.0-rc.1");
    assert_eq!(rows[1].version, "3.0.0");
}

#[test]
fn listing_all_overrides_the_count() {
    let rows = list_rows(&catalog(), &None, Some(2), true, &None);
    assert_eq!(rows.len(), 3);
}

#[test]
fn listing_filters_by_constraint_after_slicing() {
    let constraint = Some(Constraint::parse("^2.0.0").unwrap());
    let rows = list_rows(&catalog(), &constraint, None, false, &None);
    assert_eq!(rows.len(), 1);
    assert_eq!(rows[0].version, "2.0.0");
}

#[test]
fn listing_marks_the_system_version() {
    let system = Some(Version::parse("2.0.0").unwrap());
    let rows = list_rows(&catalog(), &None, None, false, &system);
    assert_eq!(rows[0].tags, "system");
    assert_eq!(rows[1].tags, "prerelease");
}

#[test]
fn listing_keeps_raw_timestamp_when_it_does_not_parse() {
    let releases = vec![release("v1.0.0", false, "yesterday")];
    let rows = list_rows(&releases, &None, None, false, &None);
    assert_eq!(rows[0].published, "yesterday");
}

#[test]
fn prerelease_and_system_tags_join_with_a_comma() {
    let releases = vec![release("v2.5.0-rc.1", true, "2023-02-01T09:00:00Z")];
    let system = Some(Version::parse("2.5.0-rc.1").unwrap());
    let rows = list_rows(&releases, &None, None, false, &system);
    assert_eq!(rows[0].tags, "prerelease, system");
}

#[test]
fn published_time_displays_through_the_long_format() {
    let rel = release("v2.0.0", false, "2023-01-15T10:30:00Z");
    assert_eq!(rel.published_time().unwrap(), "January 15 2023 10:30:00 AM");
    let bad = release("v2.0.0", false, "not a timestamp");
    assert!(bad.published_time().is_none());
}

#[test]
fn tags_reflect_prerelease_and_system_probe() {
    let rel = release("v2.5.0-rc.1", true, "2023-02-01T09:00:00Z");
    let system = Version::parse("2.5.0-rc.1").unwrap();
    assert_eq!(rel.tags(Some(&system)), vec!["prerelease", "system"]);
    assert_eq!(rel.tags(None), vec!["prerelease"]);
    let stable = release("v2.5.0", false, "2023-02-01T09:00:00Z");
    assert_eq!(stable.tags(None), Vec::<String>::new());
    assert_eq!(stable.tags(Some(&system)), Vec::<String>::new());
}
