//! The version decision: given a parsed constraint, an optional reason and
//! an anchor span, decide from the current package version whether a
//! blocking diagnostic is due, and build it.
//!
//! With no current version available the decision is silent. A current
//! version that is not a strict semantic version is itself reported, since
//! the build cannot decide the constraint against it.

use vstd::prelude::*;
use vstd::string::StringExecFns;

use crate::args::VersionConstraint;
use crate::diag::{diag_plain, opt_diag_view, opt_str_view, opt_string_view, Diag, DiagV};
use crate::semver_ext::{
    req_canon, req_match, req_matches_ver, req_to_display, ver_canon, ver_parse_ok, ver_parses,
    ver_to_display,
};
use crate::tokens::Span;

verus! {

/// The message of a blocking diagnostic: the reason, or a stock phrase, then
/// the rendered current version and constraint.
pub open spec fn block_message(
    reason: Option<Seq<char>>,
    current: Seq<char>,
    constraint: Seq<char>,
) -> Seq<char> {
    (match reason {
        Some(r) => r,
        None => "item not allowed!"@,
    }) + " (version "@ + ver_canon(current) + " matches "@ + req_canon(constraint) + ")"@
}

/// The decision for one occurrence. No current version: silence. A malformed current
/// version: a diagnostic naming it. Otherwise: a blocking diagnostic exactly
/// when the constraint matches the current version.
pub open spec fn decision_spec(
    constraint: Seq<char>,
    reason: Option<Seq<char>>,
    anchor: Span,
    current: Option<Seq<char>>,
) -> Option<DiagV> {
    match current {
        None => None,
        Some(v) => {
            if !ver_parses(v) {
                Some(DiagV { span: anchor, message: "invalid cargo semver ver"@, help: None })
            } else if req_match(constraint, v) {
                Some(DiagV { span: anchor, message: block_message(reason, v, constraint), help: None })
            } else {
                None
            }
        },
    }
}

/// With no current version available, nothing is ever reported, whatever
/// the constraint, the reason and the anchor.
pub proof fn lemma_absent_current_is_silent(
    constraint: Seq<char>,
    reason: Option<Seq<char>>,
    anchor: Span,
)
    ensures
        decision_spec(constraint, reason, anchor, None) is None,
{
}

/// Matching is deterministic: two decisions reached for the same
/// constraint, reason, anchor and current version are the same decision.
pub proof fn lemma_decision_deterministic(
    d1: Option<DiagV>,
    d2: Option<DiagV>,
    constraint: Seq<char>,
    reason: Option<Seq<char>>,
    anchor: Span,
    current: Option<Seq<char>>,
)
    requires
        d1 == decision_spec(constraint, reason, anchor, current),
        d2 == decision_spec(constraint, reason, anchor, current),
    ensures
        d1 == d2,
{
}

/// Decide one occurrence: the returned diagnostic, if any, is
/// exactly what [`decision_spec`] names for these inputs.
pub fn check_version_match(
    constraint: &VersionConstraint,
    reason: &Option<String>,
    anchor: Span,
    current: Option<&str>,
) -> (d: Option<Diag>)
    requires
        constraint.wf(),
    ensures
        opt_diag_view(d) == decision_spec(
            constraint@,
            opt_string_view(*reason),
            anchor,
            opt_str_view(current),
        ),
{
    let v = match current {
        None => {
            return None;
        },
        Some(v) => v,
    };
    if !ver_parse_ok(v) {
        return Some(diag_plain(anchor, "invalid cargo semver ver"));
    }
    if !req_matches_ver(constraint.as_str(), v) {
        return None;
    }
    let ver_text = ver_to_display(v);
    let req_text = req_to_display(constraint.as_str());
    let mut message: String = match reason {
        Some(r) => r.clone(),
        None => String::from_str("item not allowed!"),
    };
    message.append(" (version ");
    message.append(ver_text.as_str());
    message.append(" matches ");
    message.append(req_text.as_str());
    message.append(")");
    proof {
        assert(message@ =~= block_message(opt_string_view(*reason), v@, constraint@));
    }
    Some(Diag { span: anchor, message, help: None })
}

} // verus!
