//! The installer and switchover state machine.
//!
//! Installing proceeds through states: resolve the release, short-circuit
//! when it is already active or already installed, guarantee the archive is
//! cached, unpack it into a version-scoped directory, and switch the
//! `current` installation over to it — with rollback to the `old` backup
//! slot when fetching, extraction or switching fails and a backup exists.
//!
//! The machine itself only decides. Each step hands back an
//! [`InstallAction`] for the surrounding process to perform (fetch, probe,
//! check a path, download, unpack, swap symlinks, rename the backup), and
//! consumes an [`InstallEvent`] reporting how that action went. Every
//! transition is pinned by [`spec_install_step`]; what the actions do to
//! the `current` and `old` slots is modelled by [`spec_disk_after`], and
//! the rollback guarantees are proved over whole runs of the machine.

use vstd::prelude::*;
use vstd::string::StringExecFns;

use crate::cache::cache_path;
use crate::cache::spec_cache_path;
use crate::error::Error;
use crate::error::ErrorModel;
use crate::platform::filename_for;
use crate::platform::spec_filename_for;
use crate::release::spec_find_asset;
use crate::release::Release;
use crate::release::ReleaseModel;
use crate::resolve::spec_first_selectable;
use crate::text::str_eq;
use crate::text::strip_leading_char_exec;
use crate::version::Constraint;
use crate::version::Version;

verus! {

// ---------------------------------------------------------------------------
// Configuration and installation layout.
// ---------------------------------------------------------------------------

/// Everything an installation run is given up front: what to install and
/// where the layout lives.
pub struct InstallConfig {
    /// The requested constraint; absent means "latest".
    pub constraint: Option<Constraint>,
    /// Whether prereleases may be selected.
    pub allow_prerelease: bool,
    /// The data root holding one directory per installed version, the
    /// `current` slot and the `old` backup slot.
    pub data_root: String,
    /// The root of the artifact cache.
    pub cache_root: String,
    /// The running operating system, as std names it.
    pub os: String,
    /// The running architecture, as std names it.
    pub arch: String,
}

/// The mathematical view of an [`InstallConfig`].
#[verifier::ext_equal]
pub struct ConfigModel {
    pub constraint: Option<Seq<char>>,
    pub allow_prerelease: bool,
    pub data_root: Seq<char>,
    pub cache_root: Seq<char>,
    pub os: Seq<char>,
    pub arch: Seq<char>,
}

impl View for InstallConfig {
    type V = ConfigModel;

    open spec fn view(&self) -> ConfigModel {
        ConfigModel {
            constraint: match self.constraint {
                Some(ref c) => Some(c@),
                None => None,
            },
            allow_prerelease: self.allow_prerelease,
            data_root: self.data_root@,
            cache_root: self.cache_root@,
            os: self.os@,
            arch: self.arch@,
        }
    }
}

/// The version-scoped directory a release is unpacked into:
/// `<data_root>/<version>`.
pub open spec fn spec_version_dir(data_root: Seq<char>, version: Seq<char>) -> Seq<char> {
    data_root + "/"@ + version
}

/// The directory of the active installation: `<data_root>/current`.
pub open spec fn spec_current_dir(data_root: Seq<char>) -> Seq<char> {
    data_root + "/current"@
}

/// The backup slot of the previous installation:
/// `<data_root>/.wasmerenv/old`.
pub open spec fn spec_old_dir(data_root: Seq<char>) -> Seq<char> {
    data_root + "/.wasmerenv/old"@
}

/// The version-scoped directory a release is unpacked into.
pub fn version_dir(data_root: &str, version: &str) -> (r: String)
    ensures
        r@ == spec_version_dir(data_root@, version@),
{
    let mut s = data_root.to_owned();
    s.append("/");
    s.append(version);
    s
}

/// The directory of the active installation.
pub fn current_dir(data_root: &str) -> (r: String)
    ensures
        r@ == spec_current_dir(data_root@),
{
    let mut s = data_root.to_owned();
    s.append("/current");
    s
}

/// The backup slot of the previous installation.
pub fn old_dir(data_root: &str) -> (r: String)
    ensures
        r@ == spec_old_dir(data_root@),
{
    let mut s = data_root.to_owned();
    s.append("/.wasmerenv/old");
    s
}

// ---------------------------------------------------------------------------
// States, events, actions.
// ---------------------------------------------------------------------------

/// Where an installation run stands.
pub enum InstallState {
    /// Waiting for the release catalog.
    Resolving,
    /// A release is chosen; waiting for the live probe of the active
    /// binary's version.
    CheckingCurrent { release: Release },
    /// Waiting for the version read back from the installed `current`
    /// slot.
    CheckingInstalled { release: Release },
    /// Waiting to learn whether the archive is already cached.
    CheckingCache { release: Release, archive: String, url: String },
    /// Waiting for the archive download to finish.
    Downloading { release: Release, archive: String, url: String },
    /// Waiting for the archive to be unpacked into the version directory.
    Extracting { release: Release, archive: String },
    /// Waiting for the `current` slot to be switched over.
    Switching { release: Release },
    /// A step failed but a backup exists; waiting for `old` to be renamed
    /// back over `current`.
    Reverting { cause: Error },
    /// Terminal: the live binary already reports the resolved version; no
    /// file was touched.
    AlreadyActive { version: Version },
    /// Terminal: the `current` slot already holds the resolved version; no
    /// file was touched.
    AlreadyInstalled { version: Version },
    /// Terminal: the resolved release is installed and active.
    Installed { release: Release },
    /// Terminal: installing failed, and `current` was restored from the
    /// `old` backup; reported as a warning, not a hard failure.
    Reverted { cause: Error },
    /// Terminal: installing failed with no backup to restore.
    Failed { error: Error },
}

/// The mathematical view of an [`InstallState`].
#[verifier::ext_equal]
pub enum StateModel {
    Resolving,
    CheckingCurrent { release: ReleaseModel },
    CheckingInstalled { release: ReleaseModel },
    CheckingCache { release: ReleaseModel, archive: Seq<char>, url: Seq<char> },
    Downloading { release: ReleaseModel, archive: Seq<char>, url: Seq<char> },
    Extracting { release: ReleaseModel, archive: Seq<char> },
    Switching { release: ReleaseModel },
    Reverting { cause: ErrorModel },
    AlreadyActive { version: Seq<char> },
    AlreadyInstalled { version: Seq<char> },
    Installed { release: ReleaseModel },
    Reverted { cause: ErrorModel },
    Failed { error: ErrorModel },
}

impl View for InstallState {
    type V = StateModel;

    open spec fn view(&self) -> StateModel {
        match self {
            InstallState::Resolving => StateModel::Resolving,
            InstallState::CheckingCurrent { release } => StateModel::CheckingCurrent {
                release: release@,
            },
            InstallState::CheckingInstalled { release } => StateModel::CheckingInstalled {
                release: release@,
            },
            InstallState::CheckingCache { release, archive, url } => StateModel::CheckingCache {
                release: release@,
                archive: archive@,
                url: url@,
            },
            InstallState::Downloading { release, archive, url } => StateModel::Downloading {
                release: release@,
                archive: archive@,
                url: url@,
            },
            InstallState::Extracting { release, archive } => StateModel::Extracting {
                release: release@,
                archive: archive@,
            },
            InstallState::Switching { release } => StateModel::Switching { release: release@ },
            InstallState::Reverting { cause } => StateModel::Reverting { cause: cause@ },
            InstallState::AlreadyActive { version } => StateModel::AlreadyActive {
                version: version@,
            },
            InstallState::AlreadyInstalled { version } => StateModel::AlreadyInstalled {
                version: version@,
            },
            InstallState::Installed { release } => StateModel::Installed { release: release@ },
            InstallState::Reverted { cause } => StateModel::Reverted { cause: cause@ },
            InstallState::Failed { error } => StateModel::Failed { error: error@ },
        }
    }
}

/// What the surrounding process reports back after performing an action.
///
/// The `old_exists` fields must report truthfully whether the `old` backup
/// slot exists at that moment; the rollback decision rests on them.
pub enum InstallEvent {
    /// The catalog was fetched, in the provider's order (newest first).
    Catalog { releases: Vec<Release> },
    /// The catalog could not be fetched.
    CatalogFailed,
    /// What the live binary reports as its version, if it runs and its
    /// output parses.
    Probed { current: Option<Version> },
    /// What the `current` slot's installed binary reports, if present.
    InstalledTag { current: Option<Version> },
    /// Whether the archive already exists at the checked cache path.
    CacheChecked { present: bool },
    /// The archive download finished.
    Downloaded,
    /// The archive download failed.
    DownloadFailed { old_exists: bool },
    /// The archive was unpacked into the version directory.
    Extracted,
    /// Unpacking failed.
    ExtractFailed { old_exists: bool },
    /// The `current` slot now points at the new version.
    Switched,
    /// The switchover failed; the atomic swap left `current` as it was.
    SwitchFailed { old_exists: bool },
    /// The `old` backup was renamed over `current`.
    Restored,
    /// Renaming the backup failed; `current` and `old` are as they were.
    RestoreFailed,
}

/// The mathematical view of an [`InstallEvent`].
#[verifier::ext_equal]
pub enum EventModel {
    Catalog { releases: Seq<ReleaseModel> },
    CatalogFailed,
    Probed { current: Option<Seq<char>> },
    InstalledTag { current: Option<Seq<char>> },
    CacheChecked { present: bool },
    Downloaded,
    DownloadFailed { old_exists: bool },
    Extracted,
    ExtractFailed { old_exists: bool },
    Switched,
    SwitchFailed { old_exists: bool },
    Restored,
    RestoreFailed,
}

impl View for InstallEvent {
    type V = EventModel;

    open spec fn view(&self) -> EventModel {
        match self {
            InstallEvent::Catalog { releases } => EventModel::Catalog {
                releases: releases@.map_values(|r: Release| r@),
            },
            InstallEvent::CatalogFailed => EventModel::CatalogFailed,
            InstallEvent::Probed { current } => EventModel::Probed {
                current: match current {
                    Some(v) => Some(v@),
                    None => None,
                },
            },
            InstallEvent::InstalledTag { current } => EventModel::InstalledTag {
                current: match current {
                    Some(v) => Some(v@),
                    None => None,
                },
            },
            InstallEvent::CacheChecked { present } => EventModel::CacheChecked {
                present: *present,
            },
            InstallEvent::Downloaded => EventModel::Downloaded,
            InstallEvent::DownloadFailed { old_exists } => EventModel::DownloadFailed {
                old_exists: *old_exists,
            },
            InstallEvent::Extracted => EventModel::Extracted,
            InstallEvent::ExtractFailed { old_exists } => EventModel::ExtractFailed {
                old_exists: *old_exists,
            },
            InstallEvent::Switched => EventModel::Switched,
            InstallEvent::SwitchFailed { old_exists } => EventModel::SwitchFailed {
                old_exists: *old_exists,
            },
            InstallEvent::Restored => EventModel::Restored,
            InstallEvent::RestoreFailed => EventModel::RestoreFailed,
        }
    }
}

/// What the surrounding process is asked to do next.
#[derive(Debug)]
pub enum InstallAction {
    /// Fetch the release catalog.
    FetchCatalog,
    /// Run the active binary and parse its reported version.
    ProbeCurrent,
    /// Read the version installed under the `current` slot.
    ReadInstalledTag { current_dir: String },
    /// Check whether the archive exists at this cache path.
    CheckCache { path: String },
    /// Stream the artifact at `url` into the cache `path`, creating parent
    /// directories as needed.
    DownloadArchive { url: String, path: String },
    /// Unpack the gzip-tar archive into the version directory, creating it
    /// if absent.
    Extract { archive: String, dest: String },
    /// Atomically repoint the `current` slot at the version directory:
    /// create the new symlinks under a temporary name and rename them over
    /// the old ones, so `current` is always either the old target or the
    /// new one.
    Switch { version_dir: String, current_dir: String, version: String },
    /// Rename the `old` backup slot over `current`.
    RestoreOld { old_dir: String, current_dir: String },
}

/// The mathematical view of an [`InstallAction`].
#[verifier::ext_equal]
pub enum ActionModel {
    FetchCatalog,
    ProbeCurrent,
    ReadInstalledTag { current_dir: Seq<char> },
    CheckCache { path: Seq<char> },
    DownloadArchive { url: Seq<char>, path: Seq<char> },
    Extract { archive: Seq<char>, dest: Seq<char> },
    Switch { version_dir: Seq<char>, current_dir: Seq<char>, version: Seq<char> },
    RestoreOld { old_dir: Seq<char>, current_dir: Seq<char> },
}

impl View for InstallAction {
    type V = ActionModel;

    open spec fn view(&self) -> ActionModel {
        match self {
            InstallAction::FetchCatalog => ActionModel::FetchCatalog,
            InstallAction::ProbeCurrent => ActionModel::ProbeCurrent,
            InstallAction::ReadInstalledTag { current_dir } => ActionModel::ReadInstalledTag {
                current_dir: current_dir@,
            },
            InstallAction::CheckCache { path } => ActionModel::CheckCache { path: path@ },
            InstallAction::DownloadArchive { url, path } => ActionModel::DownloadArchive {
                url: url@,
                path: path@,
            },
            InstallAction::Extract { archive, dest } => ActionModel::Extract {
                archive: archive@,
                dest: dest@,
            },
            InstallAction::Switch { version_dir, current_dir, version } => ActionModel::Switch {
                version_dir: version_dir@,
                current_dir: current_dir@,
                version: version@,
            },
            InstallAction::RestoreOld { old_dir, current_dir } => ActionModel::RestoreOld {
                old_dir: old_dir@,
                current_dir: current_dir@,
            },
        }
    }
}

/// The view of an optional action.
pub open spec fn spec_action_of(a: Option<InstallAction>) -> Option<ActionModel> {
    match a {
        Some(x) => Some(x@),
        None => None,
    }
}

// ---------------------------------------------------------------------------
// The transition function.
// ---------------------------------------------------------------------------

/// What the `NotFound` report names: the constraint's text, or `latest`.
pub open spec fn spec_requested_text(c: Option<Seq<char>>) -> Seq<char> {
    match c {
        Some(t) => t,
        None => "latest"@,
    }
}

/// The rollback branch: when a backup exists, restore it and remember the
/// cause; otherwise fail hard with the cause itself.
pub open spec fn spec_fail_or_revert(cfg: ConfigModel, cause: ErrorModel, old_exists: bool) -> (
    StateModel,
    Option<ActionModel>,
) {
    if old_exists {
        (
            StateModel::Reverting { cause },
            Some(
                ActionModel::RestoreOld {
                    old_dir: spec_old_dir(cfg.data_root),
                    current_dir: spec_current_dir(cfg.data_root),
                },
            ),
        )
    } else {
        (StateModel::Failed { error: cause }, None)
    }
}

/// One transition of the install machine: from the state `s`, consuming
/// the event `e`, to the next state and the next action to perform.
/// An event that does not belong to the state leaves the machine where it
/// is.
pub open spec fn spec_install_step(cfg: ConfigModel, s: StateModel, e: EventModel) -> (
    StateModel,
    Option<ActionModel>,
) {
    match (s, e) {
        (StateModel::Resolving, EventModel::Catalog { releases }) => {
            match spec_first_selectable(cfg.constraint, cfg.allow_prerelease, releases) {
                None => (
                    StateModel::Failed {
                        error: ErrorModel::NotFound {
                            requested: spec_requested_text(cfg.constraint),
                        },
                    },
                    None,
                ),
                Some(i) => {
                    let release = releases[i];
                    if !release.version_parses() {
                        (StateModel::Failed { error: ErrorModel::MalformedVersion }, None)
                    } else {
                        (
                            StateModel::CheckingCurrent { release },
                            Some(ActionModel::ProbeCurrent),
                        )
                    }
                },
            }
        },
        (StateModel::Resolving, EventModel::CatalogFailed) => (
            StateModel::Failed { error: ErrorModel::Network },
            None,
        ),
        (StateModel::CheckingCurrent { release }, EventModel::Probed { current }) => {
            if current matches Some(v) && v == release.version_text() {
                (StateModel::AlreadyActive { version: release.version_text() }, None)
            } else {
                (
                    StateModel::CheckingInstalled { release },
                    Some(
                        ActionModel::ReadInstalledTag {
                            current_dir: spec_current_dir(cfg.data_root),
                        },
                    ),
                )
            }
        },
        (StateModel::CheckingInstalled { release }, EventModel::InstalledTag { current }) => {
            if current matches Some(v) && v == release.version_text() {
                (StateModel::AlreadyInstalled { version: release.version_text() }, None)
            } else {
                match spec_filename_for(cfg.os, cfg.arch) {
                    None => (
                        StateModel::Failed {
                            error: ErrorModel::UnsupportedPlatform { os: cfg.os, arch: cfg.arch },
                        },
                        None,
                    ),
                    Some(fname) => match spec_find_asset(release.assets, fname) {
                        None => (
                            StateModel::Failed {
                                error: ErrorModel::NotFound {
                                    requested: release.version_text(),
                                },
                            },
                            None,
                        ),
                        Some(asset) => {
                            let archive = spec_cache_path(
                                cfg.cache_root,
                                release.version_text() + "-"@ + asset.name,
                            );
                            (
                                StateModel::CheckingCache { release, archive, url: asset.url },
                                Some(ActionModel::CheckCache { path: archive }),
                            )
                        },
                    },
                }
            }
        },
        (
            StateModel::CheckingCache { release, archive, url },
            EventModel::CacheChecked { present },
        ) => {
            if present {
                (
                    StateModel::Extracting { release, archive },
                    Some(
                        ActionModel::Extract {
                            archive,
                            dest: spec_version_dir(cfg.data_root, release.version_text()),
                        },
                    ),
                )
            } else {
                (
                    StateModel::Downloading { release, archive, url },
                    Some(ActionModel::DownloadArchive { url, path: archive }),
                )
            }
        },
        (StateModel::Downloading { release, archive, url: _ }, EventModel::Downloaded) => (
            StateModel::Extracting { release, archive },
            Some(
                ActionModel::Extract {
                    archive,
                    dest: spec_version_dir(cfg.data_root, release.version_text()),
                },
            ),
        ),
        (StateModel::Downloading { .. }, EventModel::DownloadFailed { old_exists }) => {
            spec_fail_or_revert(cfg, ErrorModel::Network, old_exists)
        },
        (StateModel::Extracting { release, archive: _ }, EventModel::Extracted) => (
            StateModel::Switching { release },
            Some(
                ActionModel::Switch {
                    version_dir: spec_version_dir(cfg.data_root, release.version_text()),
                    current_dir: spec_current_dir(cfg.data_root),
                    version: release.version_text(),
                },
            ),
        ),
        (StateModel::Extracting { .. }, EventModel::ExtractFailed { old_exists }) => {
            spec_fail_or_revert(cfg, ErrorModel::Extraction, old_exists)
        },
        (StateModel::Switching { release }, EventModel::Switched) => (
            StateModel::Installed { release },
            None,
        ),
        (StateModel::Switching { .. }, EventModel::SwitchFailed { old_exists }) => {
            spec_fail_or_revert(cfg, ErrorModel::Filesystem, old_exists)
        },
        (StateModel::Reverting { cause }, EventModel::Restored) => (
            StateModel::Reverted { cause },
            None,
        ),
        (StateModel::Reverting { cause: _ }, EventModel::RestoreFailed) => (
            StateModel::Failed { error: ErrorModel::Filesystem },
            None,
        ),
        (s0, _) => (s0, None),
    }
}

/// Where every run begins: resolving, with the catalog fetch as the first
/// action.
pub fn install_start() -> (r: (InstallState, InstallAction))
    ensures
        r.0@ == StateModel::Resolving,
        r.1@ == ActionModel::FetchCatalog,
{
    (InstallState::Resolving, InstallAction::FetchCatalog)
}

/// One transition of the install machine, exactly as
/// [`spec_install_step`] prescribes it.
pub fn install_step(config: &InstallConfig, state: InstallState, event: InstallEvent) -> (r: (
    InstallState,
    Option<InstallAction>,
))
    ensures
        (r.0@, spec_action_of(r.1)) == spec_install_step(config@, state@, event@),
{
    match (state, event) {
        (InstallState::Resolving, InstallEvent::Catalog { releases }) => {
            let mut releases = releases;
            let ghost orig = releases@;
            match crate::resolve::first_selectable_index(
                &config.constraint,
                config.allow_prerelease,
                &releases,
            ) {
                None => {
                    let requested = match &config.constraint {
                        Some(c) => c.text(),
                        None => String::from_str("latest"),
                    };
                    (InstallState::Failed { error: Error::NotFound { requested } }, None)
                },
                Some(i) => {
                    let release = releases.remove(i);
                    proof {
                        assert(orig.map_values(|r: Release| r@)[i as int] == orig[i as int]@);
                    }
                    match release.version() {
                        Err(e) => (InstallState::Failed { error: e }, None),
                        Ok(_) => (
                            InstallState::CheckingCurrent { release },
                            Some(InstallAction::ProbeCurrent),
                        ),
                    }
                },
            }
        },
        (InstallState::Resolving, InstallEvent::CatalogFailed) => (
            InstallState::Failed { error: Error::Network },
            None,
        ),
        (InstallState::CheckingCurrent { release }, InstallEvent::Probed { current }) => {
            let version_text = strip_leading_char_exec(release.tag_name.as_str(), 'v');
            let same = match &current {
                Some(v) => str_eq(v.as_str(), version_text.as_str()),
                None => false,
            };
            if same {
                (InstallState::AlreadyActive { version: current.unwrap() }, None)
            } else {
                (
                    InstallState::CheckingInstalled { release },
                    Some(
                        InstallAction::ReadInstalledTag {
                            current_dir: current_dir(config.data_root.as_str()),
                        },
                    ),
                )
            }
        },
        (InstallState::CheckingInstalled { release }, InstallEvent::InstalledTag { current }) => {
            let version_text = strip_leading_char_exec(release.tag_name.as_str(), 'v');
            let same = match &current {
                Some(v) => str_eq(v.as_str(), version_text.as_str()),
                None => false,
            };
            if same {
                (InstallState::AlreadyInstalled { version: current.unwrap() }, None)
            } else {
                match filename_for(config.os.as_str(), config.arch.as_str()) {
                    None => (
                        InstallState::Failed {
                            error: Error::UnsupportedPlatform {
                                os: config.os.clone(),
                                arch: config.arch.clone(),
                            },
                        },
                        None,
                    ),
                    Some(fname) => match release.find_asset_index(fname.as_str()) {
                        None => (
                            InstallState::Failed {
                                error: Error::NotFound { requested: version_text },
                            },
                            None,
                        ),
                        Some(a) => {
                            let mut archive_name = version_text;
                            archive_name.append("-");
                            archive_name.append(release.assets[a].name.as_str());
                            let archive = cache_path(
                                config.cache_root.as_str(),
                                archive_name.as_str(),
                            );
                            let url = release.assets[a].browser_download_url.clone();
                            (
                                InstallState::CheckingCache {
                                    release,
                                    archive: archive.clone(),
                                    url,
                                },
                                Some(InstallAction::CheckCache { path: archive }),
                            )
                        },
                    },
                }
            }
        },
        (
            InstallState::CheckingCache { release, archive, url },
            InstallEvent::CacheChecked { present },
        ) => {
            if present {
                let version_text = strip_leading_char_exec(release.tag_name.as_str(), 'v');
                let dest = version_dir(config.data_root.as_str(), version_text.as_str());
                (
                    InstallState::Extracting { release, archive: archive.clone() },
                    Some(InstallAction::Extract { archive, dest }),
                )
            } else {
                (
                    InstallState::Downloading { release, archive: archive.clone(), url: url.clone() },
                    Some(InstallAction::DownloadArchive { url, path: archive }),
                )
            }
        },
        (InstallState::Downloading { release, archive, url: _ }, InstallEvent::Downloaded) => {
            let version_text = strip_leading_char_exec(release.tag_name.as_str(), 'v');
            let dest = version_dir(config.data_root.as_str(), version_text.as_str());
            (
                InstallState::Extracting { release, archive: archive.clone() },
                Some(InstallAction::Extract { archive, dest }),
            )
        },
        (
            InstallState::Downloading { release: _, archive: _, url: _ },
            InstallEvent::DownloadFailed { old_exists },
        ) => fail_or_revert(config, Error::Network, old_exists),
        (InstallState::Extracting { release, archive: _ }, InstallEvent::Extracted) => {
            let version_text = strip_leading_char_exec(release.tag_name.as_str(), 'v');
            (
                InstallState::Switching { release },
                Some(
                    InstallAction::Switch {
                        version_dir: version_dir(config.data_root.as_str(), version_text.as_str()),
                        current_dir: current_dir(config.data_root.as_str()),
                        version: version_text,
                    },
                ),
            )
        },
        (
            InstallState::Extracting { release: _, archive: _ },
            InstallEvent::ExtractFailed { old_exists },
        ) => fail_or_revert(config, Error::Extraction, old_exists),
        (InstallState::Switching { release }, InstallEvent::Switched) => (
            InstallState::Installed { release },
            None,
        ),
        (
            InstallState::Switching { release: _ },
            InstallEvent::SwitchFailed { old_exists },
        ) => fail_or_revert(config, Error::Filesystem, old_exists),
        (InstallState::Reverting { cause }, InstallEvent::Restored) => (
            InstallState::Reverted { cause },
            None,
        ),
        (InstallState::Reverting { cause: _ }, InstallEvent::RestoreFailed) => (
            InstallState::Failed { error: Error::Filesystem },
            None,
        ),
        (s, _) => (s, None),
    }
}

/// The rollback branch of [`install_step`].
fn fail_or_revert(config: &InstallConfig, cause: Error, old_exists: bool) -> (r: (
    InstallState,
    Option<InstallAction>,
))
    ensures
        (r.0@, spec_action_of(r.1)) == spec_fail_or_revert(config@, cause@, old_exists),
{
    if old_exists {
        (
            InstallState::Reverting { cause },
            Some(
                InstallAction::RestoreOld {
                    old_dir: old_dir(config.data_root.as_str()),
                    current_dir: current_dir(config.data_root.as_str()),
                },
            ),
        )
    } else {
        (InstallState::Failed { error: cause }, None)
    }
}

// ---------------------------------------------------------------------------
// What the actions do to the `current` and `old` slots, and what whole runs
// of the machine guarantee about them.
// ---------------------------------------------------------------------------

/// The two slots the switchover invariants speak of.
#[verifier::ext_equal]
pub struct DiskModel {
    /// The version the `current` slot resolves to; `None` when it is
    /// missing or dangling.
    pub current: Option<Seq<char>>,
    /// The version held by the `old` backup slot, if the slot exists.
    pub old: Option<Seq<char>>,
}

/// How performing the pending action `a`, with the event `e` reporting its
/// outcome, changes the two slots.
///
/// A successful switch repoints `current` at the new version; a successful
/// restore renames `old` over `current`. Everything else leaves the slots
/// alone: cache checks, downloads and extraction touch neither slot, and a
/// failed switch or restore leaves them as they were because the swap is
/// performed atomically (a rename either happens or does not).
pub open spec fn spec_disk_after(d: DiskModel, a: Option<ActionModel>, e: EventModel) -> DiskModel {
    match (a, e) {
        (Some(ActionModel::Switch { version_dir: _, current_dir: _, version }), EventModel::Switched) => DiskModel {
            current: Some(version),
            old: d.old,
        },
        (Some(ActionModel::RestoreOld { .. }), EventModel::Restored) => DiskModel {
            current: d.old,
            old: None,
        },
        _ => d,
    }
}

/// Whether the event answers the pending action: the surrounding process
/// reports outcomes only for what it was asked to do.
pub open spec fn spec_event_for_action(a: Option<ActionModel>, e: EventModel) -> bool {
    match e {
        EventModel::Catalog { .. } => a matches Some(ActionModel::FetchCatalog),
        EventModel::CatalogFailed => a matches Some(ActionModel::FetchCatalog),
        EventModel::Probed { .. } => a matches Some(ActionModel::ProbeCurrent),
        EventModel::InstalledTag { .. } => a matches Some(ActionModel::ReadInstalledTag { .. }),
        EventModel::CacheChecked { .. } => a matches Some(ActionModel::CheckCache { .. }),
        EventModel::Downloaded => a matches Some(ActionModel::DownloadArchive { .. }),
        EventModel::DownloadFailed { .. } => a matches Some(ActionModel::DownloadArchive { .. }),
        EventModel::Extracted => a matches Some(ActionModel::Extract { .. }),
        EventModel::ExtractFailed { .. } => a matches Some(ActionModel::Extract { .. }),
        EventModel::Switched => a matches Some(ActionModel::Switch { .. }),
        EventModel::SwitchFailed { .. } => a matches Some(ActionModel::Switch { .. }),
        EventModel::Restored => a matches Some(ActionModel::RestoreOld { .. }),
        EventModel::RestoreFailed => a matches Some(ActionModel::RestoreOld { .. }),
    }
}

/// Whether the event reports the disk truthfully: the `old_exists` flags
/// say whether the backup slot exists, and a restore can only have
/// succeeded if it did.
pub open spec fn spec_event_consistent(d: DiskModel, e: EventModel) -> bool {
    match e {
        EventModel::DownloadFailed { old_exists } => old_exists == (d.old is Some),
        EventModel::ExtractFailed { old_exists } => old_exists == (d.old is Some),
        EventModel::SwitchFailed { old_exists } => old_exists == (d.old is Some),
        EventModel::Restored => d.old is Some,
        _ => true,
    }
}

/// A whole run of the machine: fold the events through
/// [`spec_install_step`] and [`spec_disk_after`], starting from state `s`
/// with pending action `a` over the disk `d`.
pub open spec fn spec_run(
    cfg: ConfigModel,
    s: StateModel,
    a: Option<ActionModel>,
    d: DiskModel,
    events: Seq<EventModel>,
) -> (StateModel, Option<ActionModel>, DiskModel)
    decreases events.len(),
{
    if events.len() == 0 {
        (s, a, d)
    } else {
        let e = events[0];
        let d2 = spec_disk_after(d, a, e);
        let t = spec_install_step(cfg, s, e);
        spec_run(cfg, t.0, t.1, d2, events.drop_first())
    }
}

/// Whether every event of the trace answers the action pending at its
/// moment and reports the disk of that moment truthfully.
pub open spec fn spec_trace_ok(
    cfg: ConfigModel,
    s: StateModel,
    a: Option<ActionModel>,
    d: DiskModel,
    events: Seq<EventModel>,
) -> bool
    decreases events.len(),
{
    events.len() == 0 || {
        let e = events[0];
        &&& spec_event_for_action(a, e)
        &&& spec_event_consistent(d, e)
        &&& {
            let d2 = spec_disk_after(d, a, e);
            let t = spec_install_step(cfg, s, e);
            spec_trace_ok(cfg, t.0, t.1, d2, events.drop_first())
        }
    }
}

/// Law: a run of the machine never makes `current` unresolvable. Every
/// change the actions make to the slot points it somewhere: a switch at the
/// new version, a restore at what the backup held (which existed, or the
/// restore could not have succeeded).
pub proof fn lemma_current_never_lost(
    cfg: ConfigModel,
    s: StateModel,
    a: Option<ActionModel>,
    d: DiskModel,
    events: Seq<EventModel>,
)
    requires
        d.current is Some,
        spec_trace_ok(cfg, s, a, d, events),
    ensures
        spec_run(cfg, s, a, d, events).2.current is Some,
    decreases events.len(),
{
    if events.len() > 0 {
        let e = events[0];
        let d2 = spec_disk_after(d, a, e);
        let t = spec_install_step(cfg, s, e);
        lemma_current_never_lost(cfg, t.0, t.1, d2, events.drop_first());
    }
}

/// The invariant behind the rollback guarantee: until the machine has
/// reverted, the `old` backup is untouched; once it reports `Reverted`,
/// `current` holds exactly what the backup held at the start; and a restore
/// is pending only while the machine stands in `Reverting`.
pub open spec fn spec_rollback_inv(
    s: StateModel,
    a: Option<ActionModel>,
    d: DiskModel,
    initial_old: Option<Seq<char>>,
) -> bool {
    &&& (s is Reverted ==> d.current == initial_old && initial_old is Some)
    &&& (!(s is Reverted) ==> d.old == initial_old)
    &&& ((a matches Some(ActionModel::RestoreOld { .. })) ==> s is Reverting)
    &&& (s is Reverted ==> a is None)
}

/// The rollback invariant is preserved by every consistent run.
pub proof fn lemma_rollback_inv_preserved(
    cfg: ConfigModel,
    s: StateModel,
    a: Option<ActionModel>,
    d: DiskModel,
    initial_old: Option<Seq<char>>,
    events: Seq<EventModel>,
)
    requires
        spec_trace_ok(cfg, s, a, d, events),
        spec_rollback_inv(s, a, d, initial_old),
    ensures
        ({
            let r = spec_run(cfg, s, a, d, events);
            spec_rollback_inv(r.0, r.1, r.2, initial_old)
        }),
    decreases events.len(),
{
    if events.len() > 0 {
        let e = events[0];
        let d2 = spec_disk_after(d, a, e);
        let t = spec_install_step(cfg, s, e);
        lemma_rollback_inv_preserved(cfg, t.0, t.1, d2, initial_old, events.drop_first());
    }
}

/// Law: switchover never leaves `current` unresolvable when a backup
/// existed before the failing install began. Whatever the trace of
/// outcomes: if `current` resolved at the start it still resolves at the
/// end, and a run that ends reverted has restored `current` to exactly what
/// the `old` backup held.
pub proof fn lemma_switchover_preserves_current(
    cfg: ConfigModel,
    d: DiskModel,
    events: Seq<EventModel>,
)
    requires
        spec_trace_ok(cfg, StateModel::Resolving, Some(ActionModel::FetchCatalog), d, events),
    ensures
        ({
            let r = spec_run(cfg, StateModel::Resolving, Some(ActionModel::FetchCatalog), d, events);
            &&& (d.current is Some ==> r.2.current is Some)
            &&& (r.0 is Reverted ==> r.2.current == d.old && d.old is Some)
        }),
{
    let r = spec_run(cfg, StateModel::Resolving, Some(ActionModel::FetchCatalog), d, events);
    if d.current is Some {
        lemma_current_never_lost(
            cfg,
            StateModel::Resolving,
            Some(ActionModel::FetchCatalog),
            d,
            events,
        );
    }
    lemma_rollback_inv_preserved(
        cfg,
        StateModel::Resolving,
        Some(ActionModel::FetchCatalog),
        d,
        d.old,
        events,
    );
}

/// Whether the machine stands before any step that touches the
/// installation layout: still resolving, still checking, or stopped by one
/// of the two short-circuits.
pub open spec fn spec_before_mutation(s: StateModel) -> bool {
    ||| s is Resolving
    ||| s is CheckingCurrent
    ||| s is CheckingInstalled
    ||| s is AlreadyActive
    ||| s is AlreadyInstalled
}

/// Whether the pending action reads without writing to the installation
/// layout.
pub open spec fn spec_read_only_action(a: Option<ActionModel>) -> bool {
    match a {
        None => true,
        Some(x) => {
            ||| x is FetchCatalog
            ||| x is ProbeCurrent
            ||| x is ReadInstalledTag
            ||| x is CheckCache
        },
    }
}

/// The no-mutation invariant: while the machine stands before any mutating
/// step, the disk is untouched and only read-only actions are pending.
pub open spec fn spec_no_mutation_inv(
    s: StateModel,
    a: Option<ActionModel>,
    d: DiskModel,
    initial: DiskModel,
) -> bool {
    spec_before_mutation(s) ==> d == initial && spec_read_only_action(a)
}

/// The no-mutation invariant is preserved by every consistent run.
pub proof fn lemma_no_mutation_inv_preserved(
    cfg: ConfigModel,
    s: StateModel,
    a: Option<ActionModel>,
    d: DiskModel,
    initial: DiskModel,
    events: Seq<EventModel>,
)
    requires
        spec_trace_ok(cfg, s, a, d, events),
        spec_no_mutation_inv(s, a, d, initial),
    ensures
        ({
            let r = spec_run(cfg, s, a, d, events);
            spec_no_mutation_inv(r.0, r.1, r.2, initial)
        }),
    decreases events.len(),
{
    if events.len() > 0 {
        let e = events[0];
        let d2 = spec_disk_after(d, a, e);
        let t = spec_install_step(cfg, s, e);
        lemma_no_mutation_inv_preserved(cfg, t.0, t.1, d2, initial, events.drop_first());
    }
}

/// Law: a run that ends in `AlreadyActive` or `AlreadyInstalled` has
/// mutated nothing — the `current` and `old` slots stand exactly as they
/// did before the run.
pub proof fn lemma_already_current_mutates_nothing(
    cfg: ConfigModel,
    d: DiskModel,
    events: Seq<EventModel>,
)
    requires
        spec_trace_ok(cfg, StateModel::Resolving, Some(ActionModel::FetchCatalog), d, events),
    ensures
        ({
            let r = spec_run(cfg, StateModel::Resolving, Some(ActionModel::FetchCatalog), d, events);
            (r.0 is AlreadyActive || r.0 is AlreadyInstalled) ==> r.2 == d
        }),
{
    lemma_no_mutation_inv_preserved(
        cfg,
        StateModel::Resolving,
        Some(ActionModel::FetchCatalog),
        d,
        d,
        events,
    );
}

// ---------------------------------------------------------------------------
// Reporting.
// ---------------------------------------------------------------------------

/// The one-line outcome a terminal state reports to the user; `None` while
/// the machine is still running.
pub open spec fn spec_report(s: StateModel) -> Option<Seq<char>> {
    match s {
        StateModel::AlreadyActive { version } => Some(
            "You're already using wasmer "@ + version + ", which is the latest version."@,
        ),
        StateModel::AlreadyInstalled { version } => Some(
            "wasmer "@ + version + " is already installed, up to date."@,
        ),
        StateModel::Installed { release } => Some(
            "You are now using wasmer "@ + release.version_text()
                + ". You can run `wasmer --version` to check your version of wasmer."@,
        ),
        StateModel::Reverted { cause: _ } => Some(
            "Failed to install wasmer. Reverting back to the old version."@,
        ),
        StateModel::Failed { error } => Some(crate::error::spec_error_message(error)),
        _ => None,
    }
}

/// The one-line outcome of a terminal state.
pub fn report(state: &InstallState) -> (r: Option<String>)
    ensures
        match r {
            Some(m) => spec_report(state@) == Some(m@),
            None => spec_report(state@) is None,
        },
{
    match state {
        InstallState::AlreadyActive { version } => {
            let mut m = String::from_str("You're already using wasmer ");
            m.append(version.as_str());
            m.append(", which is the latest version.");
            Some(m)
        },
        InstallState::AlreadyInstalled { version } => {
            let mut m = String::from_str("wasmer ");
            m.append(version.as_str());
            m.append(" is already installed, up to date.");
            Some(m)
        },
        InstallState::Installed { release } => {
            let version_text = strip_leading_char_exec(release.tag_name.as_str(), 'v');
            let mut m = String::from_str("You are now using wasmer ");
            m.append(version_text.as_str());
            m.append(". You can run `wasmer --version` to check your version of wasmer.");
            Some(m)
        },
        InstallState::Reverted { cause: _ } => Some(
            String::from_str("Failed to install wasmer. Reverting back to the old version."),
        ),
        InstallState::Failed { error } => Some(error.message()),
        _ => None,
    }
}

} // verus!
