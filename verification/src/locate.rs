//! The attribute locator: a depth-first, left-to-right walk of a token tree
//! that finds every `#[allow_until(...)]` occurrence, parses its arguments
//! and decides each against the current version.
//!
//! A malformed occurrence aborts the whole remaining traversal after its own
//! diagnostic; a well-formed one contributes its decision's diagnostic, if any,
//! and the walk goes on.

use vstd::prelude::*;

use crate::args::{parse_args_spec, parse_arguments};
use crate::diag::{opt_str_view, opt_string_view, Diag, DiagV};
use crate::decide::{check_version_match, decision_spec};
use crate::tokens::{text_is, Group, Ident, Span, TokenTree};

verus! {

/// What a traversal produced: the diagnostics in emission order, and whether
/// it stopped early on a malformed occurrence.
pub struct LocOut {
    pub diags: Seq<DiagV>,
    pub abort: bool,
}

pub open spec fn opt_diag_seq(d: Option<DiagV>) -> Seq<DiagV> {
    match d {
        Some(x) => seq![x],
        None => Seq::empty(),
    }
}

pub open spec fn diags_view(v: Seq<Diag>) -> Seq<DiagV> {
    v.map_values(|d: Diag| d@)
}

/// Whether the bracketed body of an attribute has the recognized shape: the
/// marker identifier first, its parenthesized argument group second.
pub open spec fn marker_shape(it: Seq<TokenTree>) -> bool {
    &&& it.len() >= 2
    &&& it[0] is Ident
    &&& it[0]->Ident_0.text@ == "allow_until"@
    &&& it[1] is Group
}

/// The walk of `s` from position `i` on. A group is entered before the walk
/// continues behind it. A `#` is a match attempt: it matches only when a
/// group follows whose body has the marker shape; any other token after the
/// `#` is consumed with it and the walk resumes behind the two.
pub open spec fn locate_spec(
    s: Seq<TokenTree>,
    i: int,
    current: Option<Seq<char>>,
    cs: Span,
) -> LocOut
    decreases s, s.len() - i,
{
    if i < 0 || i >= s.len() {
        LocOut { diags: Seq::empty(), abort: false }
    } else {
        match s[i] {
            TokenTree::Group(g) => {
                let inner = locate_spec(g.tokens@, 0, current, cs);
                if inner.abort {
                    LocOut { diags: inner.diags, abort: true }
                } else {
                    let rest = locate_spec(s, i + 1, current, cs);
                    LocOut { diags: inner.diags + rest.diags, abort: rest.abort }
                }
            },
            TokenTree::Punct(h) => {
                if h.ch == '#' {
                    if i + 1 >= s.len() {
                        LocOut { diags: Seq::empty(), abort: false }
                    } else {
                        match s[i + 1] {
                            TokenTree::Group(attr) => {
                                if marker_shape(attr.tokens@) {
                                    let argg = attr.tokens@[1]->Group_0;
                                    match parse_args_spec(argg.tokens@, 0, None, None, cs) {
                                        Err(d) => LocOut { diags: seq![d], abort: true },
                                        Ok(a) => {
                                            let anchor = h.span.spec_join(attr.span).spec_join(
                                                attr.tokens@[0]->Ident_0.span,
                                            );
                                            let gd = decision_spec(a.version, a.reason, anchor, current);
                                            let rest = locate_spec(s, i + 2, current, cs);
                                            LocOut {
                                                diags: opt_diag_seq(gd) + rest.diags,
                                                abort: rest.abort,
                                            }
                                        },
                                    }
                                } else {
                                    locate_spec(s, i + 2, current, cs)
                                }
                            },
                            _ => locate_spec(s, i + 2, current, cs),
                        }
                    }
                } else {
                    locate_spec(s, i + 1, current, cs)
                }
            },
            _ => locate_spec(s, i + 1, current, cs),
        }
    }
}

/// One invocation of the locator over a group's body.
pub open spec fn locate_group_spec(g: Group, current: Option<Seq<char>>, cs: Span) -> LocOut {
    locate_spec(g.tokens@, 0, current, cs)
}

/// The walk an item body gets: each top-level group is entered in turn, and
/// an abort inside one group stops the remaining groups too.
pub open spec fn derive_spec(
    s: Seq<TokenTree>,
    i: int,
    current: Option<Seq<char>>,
    cs: Span,
) -> LocOut
    decreases s.len() - i,
{
    if i < 0 || i >= s.len() {
        LocOut { diags: Seq::empty(), abort: false }
    } else {
        match s[i] {
            TokenTree::Group(g) => {
                let inner = locate_spec(g.tokens@, 0, current, cs);
                if inner.abort {
                    LocOut { diags: inner.diags, abort: true }
                } else {
                    let rest = derive_spec(s, i + 1, current, cs);
                    LocOut { diags: inner.diags + rest.diags, abort: rest.abort }
                }
            },
            _ => derive_spec(s, i + 1, current, cs),
        }
    }
}

fn walk_tokens(
    toks: &Vec<TokenTree>,
    i: usize,
    current: Option<&str>,
    cs: Span,
    diags: &mut Vec<Diag>,
) -> (abort: bool)
    ensures
        diags_view(final(diags)@) == diags_view(old(diags)@) + locate_spec(
            toks@,
            i as int,
            opt_str_view(current),
            cs,
        ).diags,
        abort == locate_spec(toks@, i as int, opt_str_view(current), cs).abort,
    decreases toks@, toks@.len() - i,
{
    if i >= toks.len() {
        assert(diags_view(diags@) =~= diags_view(diags@) + Seq::<DiagV>::empty());
        return false;
    }
    match &toks[i] {
        TokenTree::Group(g) => {
            let aborted = walk_tokens(&g.tokens, 0, current, cs, diags);
            if aborted {
                true
            } else {
                let r = walk_tokens(toks, i + 1, current, cs, diags);
                proof {
                    let inner = locate_spec(g.tokens@, 0, opt_str_view(current), cs);
                    let rest = locate_spec(toks@, i + 1, opt_str_view(current), cs);
                    assert(diags_view(diags@) =~= diags_view(old(diags)@) + (inner.diags
                        + rest.diags));
                }
                r
            }
        },
        TokenTree::Punct(h) => {
            if h.ch == '#' {
                if i + 1 >= toks.len() {
                    assert(diags_view(diags@) =~= diags_view(diags@) + Seq::<DiagV>::empty());
                    return false;
                }
                match &toks[i + 1] {
                    TokenTree::Group(attr) => {
                        let mut found: Option<(&Ident, &Group)> = None;
                        if attr.tokens.len() >= 2 {
                            if let TokenTree::Ident(id) = &attr.tokens[0] {
                                if let TokenTree::Group(ag) = &attr.tokens[1] {
                                    if text_is(&id.text, "allow_until") {
                                        found = Some((id, ag));
                                    }
                                }
                            }
                        }
                        match found {
                            None => {
                                assert(!marker_shape(attr.tokens@));
                                walk_tokens(toks, i + 2, current, cs, diags)
                            },
                            Some((id, ag)) => {
                                match parse_arguments(&ag.tokens, cs) {
                                    Err(e) => {
                                        proof {
                                            assert(diags_view(diags@.push(e)) =~= diags_view(
                                                diags@,
                                            ) + seq![e@]);
                                        }
                                        diags.push(e);
                                        true
                                    },
                                    Ok(a) => {
                                        let anchor = h.span.join(attr.span).join(id.span);
                                        let d = check_version_match(
                                            &a.version,
                                            &a.reason,
                                            anchor,
                                            current,
                                        );
                                        let ghost gd = decision_spec(
                                            a.version@,
                                            opt_string_view(a.reason),
                                            anchor,
                                            opt_str_view(current),
                                        );
                                        match d {
                                            Some(dd) => {
                                                proof {
                                                    assert(diags_view(diags@.push(dd))
                                                        =~= diags_view(diags@) + opt_diag_seq(gd));
                                                }
                                                diags.push(dd);
                                            },
                                            None => {
                                                assert(diags_view(diags@) =~= diags_view(diags@)
                                                    + opt_diag_seq(gd));
                                            },
                                        }
                                        let r = walk_tokens(toks, i + 2, current, cs, diags);
                                        proof {
                                            let rest = locate_spec(
                                                toks@,
                                                i + 2,
                                                opt_str_view(current),
                                                cs,
                                            );
                                            assert(diags_view(diags@) =~= diags_view(old(diags)@)
                                                + (opt_diag_seq(gd) + rest.diags));
                                        }
                                        r
                                    },
                                }
                            },
                        }
                    },
                    _ => walk_tokens(toks, i + 2, current, cs, diags),
                }
            } else {
                walk_tokens(toks, i + 1, current, cs, diags)
            }
        },
        _ => walk_tokens(toks, i + 1, current, cs, diags),
    }
}

/// Walk one group, appending every diagnostic the traversal earns to
/// `diags`; the result says whether a malformed occurrence stopped the walk.
pub fn recurse_find_attr(
    group: &Group,
    current: Option<&str>,
    call_site: Span,
    diags: &mut Vec<Diag>,
) -> (abort: bool)
    ensures
        diags_view(final(diags)@) == diags_view(old(diags)@) + locate_group_spec(
            *group,
            opt_str_view(current),
            call_site,
        ).diags,
        abort == locate_group_spec(*group, opt_str_view(current), call_site).abort,
{
    walk_tokens(&group.tokens, 0, current, call_site, diags)
}

pub(crate) fn derive_walk(
    toks: &Vec<TokenTree>,
    i: usize,
    current: Option<&str>,
    cs: Span,
    diags: &mut Vec<Diag>,
) -> (abort: bool)
    ensures
        diags_view(final(diags)@) == diags_view(old(diags)@) + derive_spec(
            toks@,
            i as int,
            opt_str_view(current),
            cs,
        ).diags,
        abort == derive_spec(toks@, i as int, opt_str_view(current), cs).abort,
    decreases toks@.len() - i,
{
    if i >= toks.len() {
        assert(diags_view(diags@) =~= diags_view(diags@) + Seq::<DiagV>::empty());
        return false;
    }
    match &toks[i] {
        TokenTree::Group(g) => {
            let aborted = recurse_find_attr(g, current, cs, diags);
            if aborted {
                true
            } else {
                let r = derive_walk(toks, i + 1, current, cs, diags);
                proof {
                    let inner = locate_spec(g.tokens@, 0, opt_str_view(current), cs);
                    let rest = derive_spec(toks@, i + 1, opt_str_view(current), cs);
                    assert(diags_view(diags@) =~= diags_view(old(diags)@) + (inner.diags
                        + rest.diags));
                }
                r
            }
        },
        _ => derive_walk(toks, i + 1, current, cs, diags),
    }
}

} // verus!
