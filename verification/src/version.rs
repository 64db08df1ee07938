//! Semantic versions and version constraints.
//!
//! A [`Version`] is the canonical text of a semantic version, validated by
//! the `semver` parser; a [`Constraint`] is the text of a version
//! requirement, validated by the `semver_eq` parser (whose bare `1.2.3`
//! requirement means exact equality rather than caret compatibility).
//! Whether a version satisfies a constraint is decided by `semver_eq` behind
//! a trusted wrapper; the textual work around it — stripping a tag's leading
//! `v` markers, trimming a probe's output, removing its `wasmer ` prefix —
//! is verified here.

use vstd::prelude::*;
use vstd::string::StringExecFns;

use crate::error::Error;
use crate::text::is_space;
use crate::text::spec_has_prefix;
use crate::text::spec_trim;
use crate::text::spec_trim_end;
use crate::text::spec_trim_start;
use crate::text::strip_leading_char;
use crate::text::strip_leading_char_exec;
use crate::text::strip_leading_word;
use crate::text::strip_leading_word_exec;
use crate::text::trim;

verus! {

// ---------------------------------------------------------------------------
// Trusted view of the semver parsers and the constraint evaluator.
// ---------------------------------------------------------------------------

/// Whether `semver::Version::parse` accepts `s` as a semantic version.
pub uninterp spec fn spec_version_ok(s: Seq<char>) -> bool;

/// Whether `semver_eq::VersionReq::parse` accepts `s` as a version
/// requirement.
pub uninterp spec fn spec_req_ok(s: Seq<char>) -> bool;

/// Whether the requirement `req` matches the version `ver`; false when `ver`
/// is not a version `semver_eq` can parse.
pub uninterp spec fn spec_req_matches(req: Seq<char>, ver: Seq<char>) -> bool;

/// Relies on `semver::Version::parse`: returns whether it accepts `s`, a
/// function of the characters of `s` alone.
#[verifier::external_body]
pub(crate) fn version_parse_ok(s: &str) -> (r: bool)
    ensures
        r == spec_version_ok(s@),
{
    semver::Version::parse(s).is_ok()
}

/// Relies on `semver_eq::VersionReq::parse`: returns whether it accepts `s`,
/// a function of the characters of `s` alone.
#[verifier::external_body]
pub(crate) fn req_parse_ok(s: &str) -> (r: bool)
    ensures
        r == spec_req_ok(s@),
{
    semver_eq::VersionReq::parse(s).is_ok()
}

/// Relies on `semver_eq::VersionReq::matches`: whether the requirement `req`
/// matches the version `ver`, a function of the two texts alone. An
/// unparsable `ver` matches nothing.
#[verifier::external_body]
pub(crate) fn req_matches_version(req: &str, ver: &str) -> (r: bool)
    requires
        spec_req_ok(req@),
    ensures
        r == spec_req_matches(req@, ver@),
{
    let parsed = match semver_eq::VersionReq::parse(req) {
        Ok(p) => p,
        Err(_) => return false,
    };
    match semver_eq::Version::parse(ver) {
        Ok(v) => parsed.matches(&v),
        Err(_) => false,
    }
}

// ---------------------------------------------------------------------------
// Versions.
// ---------------------------------------------------------------------------

/// The canonical text of a parsed release tag: the tag with its leading `v`
/// markers removed.
pub open spec fn spec_tag_version_text(tag: Seq<char>) -> Seq<char> {
    strip_leading_char(tag, 'v')
}

/// The version text hidden in the output of `wasmer --version`: the output
/// trimmed, with its leading `wasmer ` tokens removed.
pub open spec fn spec_probe_version_text(out: Seq<char>) -> Seq<char> {
    strip_leading_word(spec_trim(out), "wasmer "@)
}

/// A validated semantic version, held as its canonical text.
///
/// `semver` accepts only the canonical spelling of a version (no leading
/// zeros, no stray whitespace) and displays a parsed version as that same
/// spelling, so the text itself is a faithful model of the parsed value: two
/// validated versions are equal exactly when their texts are.
#[derive(Debug)]
pub struct Version {
    text: String,
}

impl View for Version {
    type V = Seq<char>;

    closed spec fn view(&self) -> Seq<char> {
        self.text@
    }
}

impl Version {
    #[verifier::type_invariant]
    spec fn wf(self) -> bool {
        spec_version_ok(self.text@)
    }

    /// Parse the canonical text of a semantic version.
    pub fn parse(s: &str) -> (r: Result<Version, Error>)
        ensures
            r is Ok <==> spec_version_ok(s@),
            r matches Ok(v) ==> v@ == s@,
            r matches Err(e) ==> e is MalformedVersion,
    {
        if version_parse_ok(s) {
            Ok(Version { text: s.to_owned() })
        } else {
            Err(Error::MalformedVersion)
        }
    }

    /// The version's text.
    pub fn as_str(&self) -> (r: &str)
        ensures
            r@ == self@,
    {
        self.text.as_str()
    }

    /// The version's text, as an owned string.
    pub fn text(&self) -> (r: String)
        ensures
            r@ == self@,
    {
        self.text.clone()
    }
}

impl PartialEq for Version {
    /// Two versions are equal exactly when their canonical texts are.
    fn eq(&self, other: &Version) -> (r: bool) {
        self.text == other.text
    }
}

impl vstd::std_specs::cmp::PartialEqSpecImpl for Version {
    open spec fn obeys_eq_spec() -> bool {
        true
    }

    open spec fn eq_spec(&self, other: &Version) -> bool {
        self@ == other@
    }
}

/// Parse a release tag such as `v1.2.3`: leading `v` markers are stripped
/// and the remainder must be a semantic version.
pub fn version_from_tag(tag: &str) -> (r: Result<Version, Error>)
    ensures
        r is Ok <==> spec_version_ok(spec_tag_version_text(tag@)),
        r matches Ok(v) ==> v@ == spec_tag_version_text(tag@),
        r matches Err(e) ==> e is MalformedVersion,
{
    let stripped = strip_leading_char_exec(tag, 'v');
    Version::parse(stripped.as_str())
}

/// Parse the output of `wasmer --version`, such as `wasmer 1.2.3`: the
/// output is trimmed, leading `wasmer ` tokens are stripped, and the
/// remainder must be a semantic version.
pub fn version_from_version_string(version_string: String) -> (r: Result<Version, Error>)
    ensures
        r is Ok <==> spec_version_ok(spec_probe_version_text(version_string@)),
        r matches Ok(v) ==> v@ == spec_probe_version_text(version_string@),
        r matches Err(e) ==> e is MalformedVersion,
{
    let trimmed = trim(version_string.as_str());
    proof {
        reveal_strlit("wasmer ");
    }
    let stripped = strip_leading_word_exec(trimmed.as_str(), "wasmer ");
    Version::parse(stripped.as_str())
}

// ---------------------------------------------------------------------------
// Constraints.
// ---------------------------------------------------------------------------

/// A validated version requirement, held as its text.
#[derive(Debug)]
pub struct Constraint {
    text: String,
}

impl View for Constraint {
    type V = Seq<char>;

    closed spec fn view(&self) -> Seq<char> {
        self.text@
    }
}

impl Constraint {
    #[verifier::type_invariant]
    spec fn wf(self) -> bool {
        spec_req_ok(self.text@)
    }

    /// Parse the text of a version requirement, such as `^2.0.0`.
    pub fn parse(s: &str) -> (r: Result<Constraint, Error>)
        ensures
            r is Ok <==> spec_req_ok(s@),
            r matches Ok(c) ==> c@ == s@,
            r matches Err(e) ==> e is MalformedVersion,
    {
        if req_parse_ok(s) {
            Ok(Constraint { text: s.to_owned() })
        } else {
            Err(Error::MalformedVersion)
        }
    }

    /// The constraint's text.
    pub fn as_str(&self) -> (r: &str)
        ensures
            r@ == self@,
    {
        self.text.as_str()
    }

    /// The constraint's text, as an owned string.
    pub fn text(&self) -> (r: String)
        ensures
            r@ == self@,
    {
        self.text.clone()
    }

    /// Whether this constraint matches the version whose text is `ver`.
    pub fn matches_text(&self, ver: &str) -> (r: bool)
        ensures
            r == spec_req_matches(self@, ver@),
    {
        proof {
            use_type_invariant(self);
        }
        req_matches_version(self.text.as_str(), ver)
    }

    /// Whether this constraint matches the validated version `ver`.
    pub fn matches(&self, ver: &Version) -> (r: bool)
        ensures
            r == spec_req_matches(self@, ver@),
    {
        self.matches_text(ver.as_str())
    }
}

/// The precedence among the sources that can supply a constraint: an
/// explicit command argument wins, then a value piped on standard input,
/// then the environment; otherwise none, meaning "latest".
pub fn constraint_precedence(
    argument: Option<Constraint>,
    stdin: Option<Constraint>,
    environment: Option<Constraint>,
) -> (r: Option<Constraint>)
    ensures
        r == if argument is Some {
            argument
        } else if stdin is Some {
            stdin
        } else {
            environment
        },
{
    if argument.is_some() {
        argument
    } else if stdin.is_some() {
        stdin
    } else {
        environment
    }
}

// ---------------------------------------------------------------------------
// Round-trip laws.
// ---------------------------------------------------------------------------

/// Law: tag parsing round-trips on the text. A version text that does not
/// itself begin with a `v` marker comes back unchanged from the tag made of
/// `v` and that text — so the tag `v1.2.3` names the version text `1.2.3`,
/// and with [`version_from_tag`]'s contract, parses to exactly that version
/// whenever the text is a valid semantic version.
pub proof fn lemma_tag_text_round_trip(s: Seq<char>)
    requires
        s.len() == 0 || s[0] != 'v',
    ensures
        spec_tag_version_text(seq!['v'] + s) == s,
{
    let t = seq!['v'] + s;
    assert(t[0] == 'v');
    assert(t.drop_first() =~= s);
    assert(strip_leading_char(s, 'v') == s);
}

/// Law: probe parsing round-trips on the text. A version text that carries
/// no surrounding whitespace and does not itself begin with the `wasmer `
/// token comes back unchanged from the probe output made of `wasmer ` and
/// that text — so the output `wasmer 1.2.3` names the version text
/// `1.2.3`, and with [`version_from_version_string`]'s contract, parses to
/// exactly that version whenever the text is a valid semantic version.
pub proof fn lemma_probe_text_round_trip(s: Seq<char>)
    requires
        s.len() > 0,
        !is_space(s.last()),
        !spec_has_prefix(s, "wasmer "@),
    ensures
        spec_probe_version_text("wasmer "@ + s) == s,
{
    reveal_strlit("wasmer ");
    let w = "wasmer "@;
    let t = w + s;
    assert(t[0] == 'w');
    assert(!is_space(t[0]));
    assert(spec_trim_start(t) == t);
    assert(t.last() == s.last());
    assert(spec_trim_end(t) == t);
    assert(spec_trim(t) == t);
    assert(t.subrange(0, w.len() as int) =~= w);
    assert(t.skip(w.len() as int) =~= s);
    assert(strip_leading_word(t, w) == strip_leading_word(s, w));
    assert(strip_leading_word(s, w) == s);
}

} // verus!
