//! Releases and their assets, as plain data fetched from the release
//! catalog.

use vstd::prelude::*;
use vstd::string::StringExecFns;

use crate::error::Error;
use crate::platform::get_filename_for_system_architecture;
use crate::platform::spec_filename_for;
use crate::platform::spec_supported_target;
use crate::text::str_eq;
use crate::version::spec_tag_version_text;
use crate::version::spec_version_ok;
use crate::version::version_from_tag;
use crate::version::Version;

verus! {

/// One downloadable file belonging to a release.
#[derive(Debug)]
pub struct ReleaseAsset {
    pub name: String,
    pub browser_download_url: String,
}

/// The mathematical view of an asset: its two texts.
pub struct AssetModel {
    pub name: Seq<char>,
    pub url: Seq<char>,
}

impl View for ReleaseAsset {
    type V = AssetModel;

    open spec fn view(&self) -> AssetModel {
        AssetModel { name: self.name@, url: self.browser_download_url@ }
    }
}

/// One published version of the managed binary, as listed by the release
/// catalog.
#[derive(Debug)]
pub struct Release {
    pub tag_name: String,
    pub prerelease: bool,
    pub published_at: String,
    pub assets: Vec<ReleaseAsset>,
}

/// The mathematical view of a release.
pub struct ReleaseModel {
    pub tag: Seq<char>,
    pub prerelease: bool,
    pub published_at: Seq<char>,
    pub assets: Seq<AssetModel>,
}

impl View for Release {
    type V = ReleaseModel;

    open spec fn view(&self) -> ReleaseModel {
        ReleaseModel {
            tag: self.tag_name@,
            prerelease: self.prerelease,
            published_at: self.published_at@,
            assets: self.assets@.map_values(|a: ReleaseAsset| a@),
        }
    }
}

impl ReleaseModel {
    /// The canonical version text of this release's tag.
    pub open spec fn version_text(self) -> Seq<char> {
        spec_tag_version_text(self.tag)
    }

    /// Whether the tag parses as a semantic version at all.
    pub open spec fn version_parses(self) -> bool {
        spec_version_ok(self.version_text())
    }
}

/// The first asset of `assets` named `name`, in catalog order.
pub open spec fn spec_find_asset(assets: Seq<AssetModel>, name: Seq<char>) -> Option<AssetModel>
    decreases assets.len(),
{
    if assets.len() == 0 {
        None
    } else if assets[0].name == name {
        Some(assets[0])
    } else {
        spec_find_asset(assets.drop_first(), name)
    }
}

/// The asset of `rel` expected for the target platform, if the release
/// carries one.
pub open spec fn spec_platform_asset(rel: ReleaseModel, os: Seq<char>, arch: Seq<char>) -> Option<
    AssetModel,
> {
    match spec_filename_for(os, arch) {
        Some(name) => spec_find_asset(rel.assets, name),
        None => None,
    }
}

impl Release {
    /// The release's version, parsed from its tag.
    pub fn version(&self) -> (r: Result<Version, Error>)
        ensures
            r is Ok <==> self@.version_parses(),
            r matches Ok(v) ==> v@ == self@.version_text(),
            r matches Err(e) ==> e is MalformedVersion,
    {
        version_from_tag(self.tag_name.as_str())
    }

    /// The first asset whose name is the one expected for the target, by
    /// index; `None` when the release carries none.
    fn platform_asset_index(&self, os: &str, arch: &str) -> (r: Option<usize>)
        requires
            spec_supported_target(os@, arch@),
        ensures
            match r {
                Some(i) => i < self.assets@.len() && spec_platform_asset(self@, os@, arch@)
                    == Some(self.assets@[i as int]@),
                None => spec_platform_asset(self@, os@, arch@) is None,
            },
    {
        let expected = get_filename_for_system_architecture(os, arch);
        self.find_asset_index(expected.as_str())
    }

    /// The first asset of this release named `name`, by index.
    pub fn find_asset_index(&self, asset_name: &str) -> (r: Option<usize>)
        ensures
            match r {
                Some(i) => i < self.assets@.len() && spec_find_asset(self@.assets, asset_name@)
                    == Some(self.assets@[i as int]@),
                None => spec_find_asset(self@.assets, asset_name@) is None,
            },
    {
        let expected = asset_name;
        let ghost assets = self@.assets;
        let ghost name = expected@;
        let mut i: usize = 0;
        proof {
            assert(assets.skip(0) =~= assets);
        }
        while i < self.assets.len()
            invariant
                0 <= i <= self.assets@.len(),
                assets == self@.assets,
                assets.len() == self.assets@.len(),
                name == expected@,
                name == asset_name@,
                spec_find_asset(assets, name) == spec_find_asset(assets.skip(i as int), name),
                forall|j: int| 0 <= j < i ==> assets[j] == #[trigger] self.assets@[j]@,
            decreases self.assets@.len() - i,
        {
            proof {
                assert(assets[i as int] == self.assets@[i as int]@);
                assert(assets.skip(i as int)[0] == assets[i as int]);
            }
            if str_eq(self.assets[i].name.as_str(), expected) {
                proof {
                    let rest = assets.skip(i as int);
                    assert(rest.len() > 0 && rest[0].name == name);
                    assert(spec_find_asset(rest, name) == Some(rest[0]));
                }
                return Some(i);
            }
            proof {
                let rest = assets.skip(i as int);
                assert(rest[0].name != name);
                assert(spec_find_asset(rest, name) == spec_find_asset(rest.drop_first(), name));
                assert(rest.drop_first() =~= assets.skip(i + 1));
            }
            i += 1;
        }
        proof {
            assert(assets.skip(i as int) =~= Seq::<AssetModel>::empty());
        }
        None
    }

    /// The download URL of the asset expected for the target platform.
    pub fn download_url(&self, os: &str, arch: &str) -> (r: Option<String>)
        requires
            spec_supported_target(os@, arch@),
        ensures
            match r {
                Some(u) => spec_platform_asset(self@, os@, arch@) matches Some(a) && a.url == u@,
                None => spec_platform_asset(self@, os@, arch@) is None,
            },
    {
        match self.platform_asset_index(os, arch) {
            Some(i) => Some(self.assets[i].browser_download_url.clone()),
            None => None,
        }
    }

    /// The collision-free cache filename for this release's platform
    /// artifact: the version text, a dash, and the asset's name. `None` when
    /// the release has no artifact for the target or its tag does not parse.
    pub fn filename(&self, os: &str, arch: &str) -> (r: Option<String>)
        requires
            spec_supported_target(os@, arch@),
        ensures
            match r {
                Some(f) => self@.version_parses() && (spec_platform_asset(self@, os@, arch@)
                    matches Some(a) && f@ == self@.version_text() + "-"@ + a.name),
                None => !self@.version_parses() || spec_platform_asset(self@, os@, arch@) is None,
            },
    {
        let version = match self.version() {
            Ok(v) => v,
            Err(_) => return None,
        };
        match self.platform_asset_index(os, arch) {
            Some(i) => {
                let mut f = version.text();
                f.append("-");
                f.append(self.assets[i].name.as_str());
                Some(f)
            },
            None => None,
        }
    }
}

// ---------------------------------------------------------------------------
// Publication time, displayed through chrono.
// ---------------------------------------------------------------------------

/// Whether chrono's RFC 3339 parser accepts `s`.
pub uninterp spec fn spec_rfc3339_ok(s: Seq<char>) -> bool;

/// The display of the RFC 3339 timestamp `s` in the catalog's long date
/// format (month name, day, year, twelve-hour clock time).
pub uninterp spec fn spec_published_display(s: Seq<char>) -> Seq<char>;

/// Relies on `chrono::DateTime::parse_from_rfc3339` and chrono's `%B %e %Y
/// %r` formatter: acceptance and display are functions of the text alone.
#[verifier::external_body]
fn format_rfc3339(s: &str) -> (r: Option<String>)
    ensures
        r is Some <==> spec_rfc3339_ok(s@),
        r matches Some(t) ==> t@ == spec_published_display(s@),
{
    match chrono::DateTime::parse_from_rfc3339(s) {
        Ok(d) => Some(d.format("%B %e %Y %r").to_string()),
        Err(_) => None,
    }
}

impl Release {
    /// The release's publication instant, displayed for the listing; `None`
    /// when the catalog's timestamp is not valid RFC 3339.
    pub fn published_time(&self) -> (r: Option<String>)
        ensures
            r is Some <==> spec_rfc3339_ok(self@.published_at),
            r matches Some(t) ==> t@ == spec_published_display(self@.published_at),
    {
        format_rfc3339(self.published_at.as_str())
    }
}

// ---------------------------------------------------------------------------
// Listing tags.
// ---------------------------------------------------------------------------

/// The tags shown beside a release in the listing: `prerelease` when the
/// catalog marks it so, and `system` when the system-wide binary (probed by
/// the caller) reports this release's version.
pub open spec fn spec_tags(rel: ReleaseModel, system: Option<Seq<char>>) -> Seq<Seq<char>> {
    let base: Seq<Seq<char>> = if rel.prerelease {
        seq!["prerelease"@]
    } else {
        Seq::empty()
    };
    if {
        &&& system matches Some(v)
        &&& rel.version_parses()
        &&& v == rel.version_text()
    } {
        base.push("system"@)
    } else {
        base
    }
}

impl Release {
    /// The tags shown beside this release in the listing. `system_version`
    /// is what the system-wide binary reported, probed by the caller.
    pub fn tags(&self, system_version: Option<&Version>) -> (r: Vec<String>)
        ensures
            r.deep_view() == spec_tags(
                self@,
                match system_version {
                    Some(v) => Some(v@),
                    None => None,
                },
            ),
    {
        let mut tags: Vec<String> = Vec::new();
        if self.prerelease {
            tags.push(String::from_str("prerelease"));
        }
        if let Some(system) = system_version {
            if let Ok(version) = self.version() {
                if &version == system {
                    tags.push(String::from_str("system"));
                }
            }
        }
        proof {
            assert(tags.deep_view() =~= spec_tags(
                self@,
                match system_version {
                    Some(v) => Some(v@),
                    None => None,
                },
            ));
        }
        tags
    }
}

} // verus!
