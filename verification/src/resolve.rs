//! The version resolver: selecting, from the catalog in its given order,
//! the release to install.
//!
//! The tie-break rule is first match wins — the catalog comes newest first,
//! and the first release whose version satisfies the constraint is chosen,
//! not the highest-versioned one.

use vstd::prelude::*;

use crate::error::Error;
use crate::release::Release;
use crate::release::ReleaseModel;
use crate::version::spec_req_matches;
use crate::version::Constraint;
use crate::version::Version;

verus! {

/// The view of an optional constraint: its text, if one was given.
pub open spec fn spec_constraint_of(c: Option<Constraint>) -> Option<Seq<char>> {
    match c {
        Some(x) => Some(x@),
        None => None,
    }
}

/// The views of a catalog of releases.
pub open spec fn spec_catalog(releases: Seq<Release>) -> Seq<ReleaseModel> {
    releases.map_values(|r: Release| r@)
}

/// Whether a release's version satisfies the constraint; an absent
/// constraint means "latest" and is satisfied by every release.
pub open spec fn spec_constraint_matches(c: Option<Seq<char>>, rel: ReleaseModel) -> bool {
    match c {
        None => true,
        Some(cs) => spec_req_matches(cs, rel.version_text()),
    }
}

/// Whether a release may be selected at all: prereleases are candidates
/// only when the caller allows them.
pub open spec fn spec_candidate(allow_prerelease: bool, rel: ReleaseModel) -> bool {
    allow_prerelease || !rel.prerelease
}

/// Whether a release is the kind the caller asked for: a candidate whose
/// version satisfies the constraint.
pub open spec fn spec_selectable(
    c: Option<Seq<char>>,
    allow_prerelease: bool,
    rel: ReleaseModel,
) -> bool {
    spec_candidate(allow_prerelease, rel) && spec_constraint_matches(c, rel)
}

/// The index of the first selectable release of the catalog, in given
/// order.
pub open spec fn spec_first_selectable(
    c: Option<Seq<char>>,
    allow_prerelease: bool,
    rels: Seq<ReleaseModel>,
) -> Option<int>
    decreases rels.len(),
{
    if rels.len() == 0 {
        None
    } else if spec_selectable(c, allow_prerelease, rels[0]) {
        Some(0)
    } else {
        match spec_first_selectable(c, allow_prerelease, rels.drop_first()) {
            Some(i) => Some(i + 1),
            None => None,
        }
    }
}

/// `spec_first_selectable` names exactly the first selectable index: the
/// release there is selectable, everything before it is not, and a `None`
/// means nothing is selectable.
pub proof fn lemma_first_selectable(
    c: Option<Seq<char>>,
    allow_prerelease: bool,
    rels: Seq<ReleaseModel>,
)
    ensures
        match spec_first_selectable(c, allow_prerelease, rels) {
            Some(i) => 0 <= i < rels.len() && spec_selectable(c, allow_prerelease, rels[i]) && (
            forall|j: int| 0 <= j < i ==> !spec_selectable(c, allow_prerelease, rels[j])),
            None => forall|j: int|
                0 <= j < rels.len() ==> !spec_selectable(c, allow_prerelease, rels[j]),
        },
    decreases rels.len(),
{
    if rels.len() > 0 && !spec_selectable(c, allow_prerelease, rels[0]) {
        let sub = rels.drop_first();
        lemma_first_selectable(c, allow_prerelease, sub);
        match spec_first_selectable(c, allow_prerelease, sub) {
            Some(i) => {
                assert(rels[i + 1] == sub[i]);
                assert forall|j: int| 0 <= j < i + 1 implies !spec_selectable(
                    c,
                    allow_prerelease,
                    rels[j],
                ) by {
                    if j > 0 {
                        assert(rels[j] == sub[j - 1]);
                    }
                }
            },
            None => {
                assert forall|j: int| 0 <= j < rels.len() implies !spec_selectable(
                    c,
                    allow_prerelease,
                    rels[j],
                ) by {
                    if j > 0 {
                        assert(rels[j] == sub[j - 1]);
                    }
                }
            },
        }
    }
}

pub(crate) fn first_selectable_index(
    constraint: &Option<Constraint>,
    allow_prerelease: bool,
    releases: &Vec<Release>,
) -> (r: Option<usize>)
    ensures
        ({
            let c = spec_constraint_of(*constraint);
            let rels = spec_catalog(releases@);
            match r {
                Some(i) => i < rels.len() && spec_selectable(c, allow_prerelease, rels[i as int])
                    && (forall|j: int|
                    0 <= j < i ==> !spec_selectable(c, allow_prerelease, rels[j])),
                None => forall|j: int|
                    0 <= j < rels.len() ==> !spec_selectable(c, allow_prerelease, rels[j]),
            }
        }),
        spec_first_selectable(
            spec_constraint_of(*constraint),
            allow_prerelease,
            spec_catalog(releases@),
        ) == (match r {
            Some(i) => Some(i as int),
            None => None::<int>,
        }),
{
    let ghost c = spec_constraint_of(*constraint);
    let ghost rels = spec_catalog(releases@);
    let mut i: usize = 0;
    while i < releases.len()
        invariant
            0 <= i <= releases@.len(),
            c == spec_constraint_of(*constraint),
            rels == spec_catalog(releases@),
            rels.len() == releases@.len(),
            forall|j: int| 0 <= j < i ==> !spec_selectable(c, allow_prerelease, rels[j]),
        decreases releases@.len() - i,
    {
        proof {
            assert(rels[i as int] == releases@[i as int]@);
        }
        let rel = &releases[i];
        let candidate = allow_prerelease || !rel.prerelease;
        if candidate {
            let matched = match constraint {
                Some(cons) => {
                    let text = crate::text::strip_leading_char_exec(rel.tag_name.as_str(), 'v');
                    cons.matches_text(text.as_str())
                },
                None => true,
            };
            if matched {
                proof {
                    lemma_first_selectable(c, allow_prerelease, rels);
                }
                return Some(i);
            }
        }
        i += 1;
    }
    proof {
        lemma_first_selectable(c, allow_prerelease, rels);
    }
    None
}

/// Select the release to install: the first release of the catalog, in its
/// given order, whose version satisfies the constraint; the catalog's first
/// entry when no constraint is given; none when nothing satisfies it.
pub fn resolve(constraint: &Option<Constraint>, releases: Vec<Release>) -> (r: Option<Release>)
    ensures
        ({
            let c = spec_constraint_of(*constraint);
            let rels = spec_catalog(releases@);
            match r {
                Some(rel) => exists|i: int|
                    0 <= i < rels.len() && rel == releases@[i] && spec_constraint_matches(
                        c,
                        rels[i],
                    ) && (forall|j: int| 0 <= j < i ==> !spec_constraint_matches(c, rels[j])),
                None => forall|j: int|
                    0 <= j < rels.len() ==> !spec_constraint_matches(c, rels[j]),
            }
        }),
{
    let mut releases = releases;
    let ghost orig = releases@;
    match first_selectable_index(constraint, true, &releases) {
        Some(i) => {
            let rel = releases.remove(i);
            proof {
                assert(spec_catalog(orig)[i as int] == orig[i as int]@);
            }
            Some(rel)
        },
        None => None,
    }
}

/// Select the release to install, excluding prereleases from the candidates
/// unless `install_prerelease` allows them.
pub fn release_to_install(
    version: &Option<Constraint>,
    install_prerelease: bool,
    releases: Vec<Release>,
) -> (r: Option<Release>)
    ensures
        ({
            let c = spec_constraint_of(*version);
            let rels = spec_catalog(releases@);
            match r {
                Some(rel) => exists|i: int|
                    0 <= i < rels.len() && rel == releases@[i] && spec_selectable(
                        c,
                        install_prerelease,
                        rels[i],
                    ) && (forall|j: int|
                    0 <= j < i ==> !spec_selectable(c, install_prerelease, rels[j])),
                None => forall|j: int|
                    0 <= j < rels.len() ==> !spec_selectable(c, install_prerelease, rels[j]),
            }
        }),
{
    let mut releases = releases;
    let ghost orig = releases@;
    match first_selectable_index(version, install_prerelease, &releases) {
        Some(i) => {
            let rel = releases.remove(i);
            proof {
                assert(spec_catalog(orig)[i as int] == orig[i as int]@);
            }
            Some(rel)
        },
        None => None,
    }
}

/// Refuse to reinstall the release that is already active: when the probed
/// current version equals the release's version, this is reported as the
/// `AlreadyInstalled` short-circuit.
pub fn check_release_already_installed(
    release: &Release,
    current_version: &Option<Version>,
) -> (r: Result<(), Error>)
    ensures
        ({
            match current_version {
                None => r is Ok,
                Some(cv) => {
                    if !release@.version_parses() {
                        r matches Err(e) && e is MalformedVersion
                    } else if cv@ == release@.version_text() {
                        r matches Err(e) && (e matches Error::AlreadyInstalled { version }
                            && version@ == cv@)
                    } else {
                        r is Ok
                    }
                },
            }
        }),
{
    match current_version {
        None => Ok(()),
        Some(cv) => {
            let version = match release.version() {
                Ok(v) => v,
                Err(e) => {
                    return Err(e);
                },
            };
            if &version == cv {
                Err(Error::AlreadyInstalled { version: cv.text() })
            } else {
                Ok(())
            }
        },
    }
}

} // verus!
