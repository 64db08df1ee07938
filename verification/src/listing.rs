//! The listing selection: which releases the `list` command shows, in which
//! order, and the three texts of each row.
//!
//! The catalog arrives newest first. The listing reverses it (oldest
//! first), keeps only the newest `count` entries unless asked for all, and
//! then drops rows whose version does not satisfy the constraint. The table
//! drawing itself is presentation and stays outside the library.

use vstd::prelude::*;
use vstd::string::StringExecFns;

use crate::release::spec_rfc3339_ok;
use crate::release::spec_published_display;
use crate::release::Release;
use crate::release::ReleaseModel;
use crate::resolve::spec_catalog;
use crate::resolve::spec_constraint_matches;
use crate::resolve::spec_constraint_of;
use crate::text::strip_leading_char_exec;
use crate::version::Constraint;
use crate::version::Version;

verus! {

/// One row of the listing: the release's tags, its version and its
/// publication time, as displayed.
pub struct ListRow {
    pub tags: String,
    pub version: String,
    pub published: String,
}

/// The mathematical view of a row: its three texts.
#[verifier::ext_equal]
pub struct RowModel {
    pub tags: Seq<char>,
    pub version: Seq<char>,
    pub published: Seq<char>,
}

impl View for ListRow {
    type V = RowModel;

    open spec fn view(&self) -> RowModel {
        RowModel { tags: self.tags@, version: self.version@, published: self.published@ }
    }
}

/// The tags column: `prerelease` and `system` as applicable, joined by a
/// comma.
pub open spec fn spec_tags_text(rel: ReleaseModel, system: Option<Seq<char>>) -> Seq<char> {
    let sys = {
        &&& system matches Some(v)
        &&& rel.version_parses()
        &&& v == rel.version_text()
    };
    if rel.prerelease && sys {
        "prerelease, system"@
    } else if rel.prerelease {
        "prerelease"@
    } else if sys {
        "system"@
    } else {
        ""@
    }
}

/// The publication column: the timestamp displayed through chrono when it
/// parses, the catalog's raw text otherwise.
pub open spec fn spec_published_text(rel: ReleaseModel) -> Seq<char> {
    if spec_rfc3339_ok(rel.published_at) {
        spec_published_display(rel.published_at)
    } else {
        rel.published_at
    }
}

/// The row shown for one release.
pub open spec fn spec_row_of(rel: ReleaseModel, system: Option<Seq<char>>) -> RowModel {
    RowModel {
        tags: spec_tags_text(rel, system),
        version: rel.version_text(),
        published: spec_published_text(rel),
    }
}

/// Which releases the listing walks, in display order: the catalog
/// reversed (oldest first), narrowed to its newest `count` entries unless
/// `all` or the count covers everything.
pub open spec fn spec_listed(rels: Seq<ReleaseModel>, count: Option<usize>, all: bool) -> Seq<
    ReleaseModel,
> {
    let rev = rels.reverse();
    match count {
        Some(c) => if c < rels.len() && !all {
            rev.subrange(rels.len() - c, rels.len() as int)
        } else {
            rev
        },
        None => rev,
    }
}

/// The rows of the listing: the walked releases, keeping only those whose
/// version satisfies the constraint.
pub open spec fn spec_rows(
    rels: Seq<ReleaseModel>,
    c: Option<Seq<char>>,
    system: Option<Seq<char>>,
) -> Seq<RowModel>
    decreases rels.len(),
{
    if rels.len() == 0 {
        Seq::empty()
    } else {
        let init = spec_rows(rels.drop_last(), c, system);
        if spec_constraint_matches(c, rels.last()) {
            init.push(spec_row_of(rels.last(), system))
        } else {
            init
        }
    }
}

/// The row shown for one release.
fn row_of(release: &Release, system_version: &Option<Version>) -> (r: ListRow)
    ensures
        r@ == spec_row_of(
            release@,
            match system_version {
                Some(v) => Some(v@),
                None => None,
            },
        ),
{
    let version = strip_leading_char_exec(release.tag_name.as_str(), 'v');
    let sys = match system_version {
        Some(v) => match release.version() {
            Ok(rv) => &rv == v,
            Err(_) => false,
        },
        None => false,
    };
    let tags = if release.prerelease && sys {
        String::from_str("prerelease, system")
    } else if release.prerelease {
        String::from_str("prerelease")
    } else if sys {
        String::from_str("system")
    } else {
        String::from_str("")
    };
    let published = match release.published_time() {
        Some(t) => t,
        None => release.published_at.clone(),
    };
    ListRow { tags, version, published }
}

/// The rows the `list` command shows for this catalog: reversed to oldest
/// first, narrowed to the newest `count` releases unless `all`, filtered by
/// the constraint, each rendered as its three texts.
pub fn list_rows(
    releases: &Vec<Release>,
    version: &Option<Constraint>,
    count: Option<usize>,
    all: bool,
    system_version: &Option<Version>,
) -> (r: Vec<ListRow>)
    ensures
        r@.map_values(|row: ListRow| row@) == spec_rows(
            spec_listed(spec_catalog(releases@), count, all),
            spec_constraint_of(*version),
            match system_version {
                Some(v) => Some(v@),
                None => None,
            },
        ),
{
    let ghost rels = spec_catalog(releases@);
    let ghost c = spec_constraint_of(*version);
    let ghost sys = match system_version {
        Some(v) => Some(v@),
        None => None,
    };
    let ghost listed = spec_listed(rels, count, all);
    let n = releases.len();
    let m: usize = match count {
        Some(cnt) => if cnt < n && !all {
            cnt
        } else {
            n
        },
        None => n,
    };
    proof {
        assert(listed.len() == m);
        assert forall|j: int| 0 <= j < m implies listed[j] == rels[m - 1 - j] by {
            if count matches Some(cnt) && cnt < rels.len() && !all {
                assert(listed[j] == rels.reverse()[rels.len() - m + j]);
            }
            assert(rels.reverse().len() == rels.len());
        }
    }
    let mut rows: Vec<ListRow> = Vec::new();
    let mut k: usize = 0;
    proof {
        assert(listed.take(0) =~= Seq::<ReleaseModel>::empty());
        assert(rows@.map_values(|row: ListRow| row@) =~= Seq::<RowModel>::empty());
    }
    while k < m
        invariant
            0 <= k <= m <= n,
            n == releases@.len(),
            rels == spec_catalog(releases@),
            rels.len() == n,
            c == spec_constraint_of(*version),
            sys == (match system_version {
                Some(v) => Some(v@),
                None => None,
            }),
            listed == spec_listed(rels, count, all),
            listed.len() == m,
            forall|j: int| 0 <= j < m ==> listed[j] == rels[m - 1 - j],
            rows@.map_values(|row: ListRow| row@) == spec_rows(listed.take(k as int), c, sys),
        decreases m - k,
    {
        let idx = m - 1 - k;
        proof {
            assert(rels[idx as int] == releases@[idx as int]@);
            assert(listed[k as int] == rels[idx as int]);
        }
        let release = &releases[idx];
        let ghost before = rows@.map_values(|row: ListRow| row@);
        let matched = match version {
            Some(cons) => {
                let text = strip_leading_char_exec(release.tag_name.as_str(), 'v');
                cons.matches_text(text.as_str())
            },
            None => true,
        };
        if matched {
            let row = row_of(release, system_version);
            rows.push(row);
        }
        proof {
            assert(listed.take(k + 1).drop_last() =~= listed.take(k as int));
            assert(listed.take(k + 1).last() == listed[k as int]);
            assert(rows@.map_values(|row: ListRow| row@) =~= spec_rows(
                listed.take(k + 1),
                c,
                sys,
            ));
        }
        k += 1;
    }
    proof {
        assert(listed.take(m as int) =~= listed);
    }
    rows
}

} // verus!
