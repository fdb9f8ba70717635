//! The boundary to the `semver` crate.
//!
//! Constraint strings and version strings are kept as plain strings on this
//! side; what `semver` computes from them is given names here, and each
//! wrapper's contract states its call's result over those names.

use vstd::prelude::*;

verus! {

/// Whether a string parses as a version requirement under `semver`'s
/// constraint grammar.
pub uninterp spec fn req_parses(s: Seq<char>) -> bool;

/// Whether a string parses as a strict semantic version.
pub uninterp spec fn ver_parses(s: Seq<char>) -> bool;

/// Whether the version written `v` satisfies the requirement written `c`;
/// meaningful when both strings parse.
pub uninterp spec fn req_match(c: Seq<char>, v: Seq<char>) -> bool;

/// The canonical rendering of the requirement written `c`; meaningful when
/// `c` parses.
pub uninterp spec fn req_canon(c: Seq<char>) -> Seq<char>;

/// The canonical rendering of the version written `v`; meaningful when `v`
/// parses.
pub uninterp spec fn ver_canon(v: Seq<char>) -> Seq<char>;

/// Relies on `semver::VersionReq::parse`: whether it returns `Ok` depends on
/// the input string alone.
#[verifier::external_body]
pub(crate) fn req_parse_ok(s: &str) -> (ok: bool)
    ensures
        ok == req_parses(s@),
{
    semver::VersionReq::parse(s).is_ok()
}

/// Relies on `semver::Version::parse`: whether it returns `Ok` depends on the
/// input string alone.
#[verifier::external_body]
pub(crate) fn ver_parse_ok(s: &str) -> (ok: bool)
    ensures
        ok == ver_parses(s@),
{
    semver::Version::parse(s).is_ok()
}

/// Relies on `semver::VersionReq::matches` (after `VersionReq::parse` and
/// `Version::parse`, which succeed on the admitted inputs): the answer is a
/// function of the two strings alone.
#[verifier::external_body]
pub(crate) fn req_matches_ver(c: &str, v: &str) -> (b: bool)
    requires
        req_parses(c@),
        ver_parses(v@),
    ensures
        b == req_match(c@, v@),
{
    semver::VersionReq::parse(c).unwrap().matches(&semver::Version::parse(v).unwrap())
}

/// Relies on `semver::VersionReq`'s `Display` (after `VersionReq::parse`,
/// which succeeds on the admitted inputs): the rendering is a function of the
/// input string alone.
#[verifier::external_body]
pub(crate) fn req_to_display(c: &str) -> (r: String)
    requires
        req_parses(c@),
    ensures
        r@ == req_canon(c@),
{
    semver::VersionReq::parse(c).unwrap().to_string()
}

/// Relies on `semver::Version`'s `Display` (after `Version::parse`, which
/// succeeds on the admitted inputs): the rendering is a function of the input
/// string alone.
#[verifier::external_body]
pub(crate) fn ver_to_display(v: &str) -> (r: String)
    requires
        ver_parses(v@),
    ensures
        r@ == ver_canon(v@),
{
    semver::Version::parse(v).unwrap().to_string()
}

} // verus!
