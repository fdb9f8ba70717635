//! Gate items on a semantic-version constraint written in an attribute.
//!
//! The crate models the token stream an attribute macro receives, parses the
//! `name = "value"` argument list of an `allow_until` marker, and decides,
//! from the package's current version, whether a diagnostic must be raised at
//! the marker's source span. The caller supplies the token tree, the current
//! version string and the call-site span, and emits the returned diagnostics.

use vstd::prelude::*;

pub mod args;
pub mod diag;
pub mod decide;
pub mod locate;
pub mod semver_ext;
pub mod tokens;

pub use args::{ParsedArgs, VersionConstraint};
pub use diag::{Diag, DiagV};
pub use locate::recurse_find_attr;
pub use tokens::{Group, Ident, Literal, Punct, Span, TokenTree};

use crate::args::{parse_args_spec, parse_arguments};
use crate::diag::{opt_diag_view, opt_str_view};
use crate::decide::{check_version_match, decision_spec};
use crate::locate::{derive_spec, derive_walk, diags_view};

verus! {

/// What the direct-attribute entry answers: the first grammar diagnostic of
/// the argument list, or else the version decision anchored at the call site.
pub open spec fn allow_until_spec(
    args: Seq<TokenTree>,
    current: Option<Seq<char>>,
    cs: Span,
) -> Option<DiagV> {
    match parse_args_spec(args, 0, None, None, cs) {
        Err(d) => Some(d),
        Ok(a) => decision_spec(a.version, a.reason, cs, current),
    }
}

/// With no current version available the mechanism is inert: a well-formed
/// argument list earns no diagnostic at all, whatever its constraint says.
pub proof fn lemma_absent_current_entry_silent(args: Seq<TokenTree>, cs: Span)
    requires
        parse_args_spec(args, 0, None, None, cs) is Ok,
    ensures
        allow_until_spec(args, None, cs) is None,
{
}

/// The direct-attribute entry point: parse the attached argument list once,
/// decide it, and pass the annotated item through unchanged.
///
/// The item comes back exactly as it went in, in every case: the
/// mechanism only decorates a build with errors, it never rewrites code.
pub fn allow_until(
    args: &Vec<TokenTree>,
    item: Vec<TokenTree>,
    current: Option<&str>,
    call_site: Span,
) -> (r: (Vec<TokenTree>, Option<Diag>))
    ensures
        r.0 == item,
        opt_diag_view(r.1) == allow_until_spec(args@, opt_str_view(current), call_site),
{
    match parse_arguments(args, call_site) {
        Err(e) => (item, Some(e)),
        Ok(a) => {
            let d = check_version_match(&a.version, &a.reason, call_site, current);
            (item, d)
        },
    }
}

/// The derive-style entry point: walk the whole item body, process every
/// `#[allow_until(...)]` occurrence found at any depth, and return the
/// diagnostics in emission order. The body itself is discarded downstream;
/// nothing replaces it.
pub fn allow_until_derive(stream: &Vec<TokenTree>, current: Option<&str>, call_site: Span) -> (diags:
    Vec<Diag>)
    ensures
        diags_view(diags@) == derive_spec(stream@, 0, opt_str_view(current), call_site).diags,
{
    let mut diags: Vec<Diag> = Vec::new();
    let _aborted = derive_walk(stream, 0, current, call_site, &mut diags);
    diags
}

} // verus!
