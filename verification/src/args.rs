//! The argument parser: a flat token sequence such as
//! `version = ">=1.0.0", reason = "gone"` becomes a validated record, or a
//! diagnostic anchored at the offending token.
//!
//! The grammar is `pair (',' pair)*` with an optional trailing comma, where a
//! pair is `IDENT '=' LITERAL`. The keys `version` and `reason` are
//! recognized; a repeated key overwrites the earlier value. A literal is
//! unquoted by dropping its first and last character, with no treatment of
//! escape sequences.

use vstd::prelude::*;
use vstd::string::StringExecFns;

use crate::diag::{diag_plain, diag_with_help, opt_string_view, DiagV};
use crate::semver_ext::req_parse_ok;
use crate::semver_ext::req_parses;
use crate::tokens::{text_is, Span, TokenTree};

verus! {

/// A version requirement, kept as the raw constraint string; only strings
/// that `semver` accepts ever become a `VersionConstraint`.
#[derive(Debug)]
pub struct VersionConstraint {
    pub text: String,
}

impl View for VersionConstraint {
    type V = Seq<char>;

    open spec fn view(&self) -> Seq<char> {
        self.text@
    }
}

impl VersionConstraint {
    pub open spec fn wf(&self) -> bool {
        req_parses(self.text@)
    }

    /// Build a constraint from a string, if `semver` accepts it.
    pub fn new(s: &str) -> (r: Option<VersionConstraint>)
        ensures
            r is Some <==> req_parses(s@),
            r matches Some(c) ==> c@ == s@ && c.wf(),
    {
        if req_parse_ok(s) {
            Some(VersionConstraint { text: String::from_str(s) })
        } else {
            None
        }
    }

    pub fn as_str(&self) -> (r: &str)
        ensures
            r@ == self@,
    {
        self.text.as_str()
    }
}

/// The validated argument record: the required constraint and the optional
/// reason string.
#[derive(Debug)]
pub struct ParsedArgs {
    pub version: VersionConstraint,
    pub reason: Option<String>,
}

/// The mathematical shape of a parsed record: the raw constraint string and
/// the unquoted reason.
pub struct ArgsV {
    pub version: Seq<char>,
    pub reason: Option<Seq<char>>,
}

impl View for ParsedArgs {
    type V = ArgsV;

    open spec fn view(&self) -> ArgsV {
        ArgsV { version: self.version@, reason: opt_string_view(self.reason) }
    }
}

pub open spec fn parse_result_view(r: Result<ParsedArgs, crate::diag::Diag>) -> Result<
    ArgsV,
    DiagV,
> {
    match r {
        Ok(a) => Ok(a@),
        Err(d) => Err(d@),
    }
}

/// A literal's text with its quoting delimiters dropped; meaningful when the
/// text has at least the two delimiter characters.
pub open spec fn unquoted(text: Seq<char>) -> Seq<char> {
    text.subrange(1, text.len() as int - 1)
}

/// What one `key = "value"` pair does to the accumulated state: an updated
/// `(version, reason)` pair, or the diagnostic the pair earns.
pub open spec fn apply_pair(
    id_text: Seq<char>,
    lit_text: Seq<char>,
    lit_span: Span,
    ver: Option<Seq<char>>,
    rsn: Option<Seq<char>>,
) -> Result<(Option<Seq<char>>, Option<Seq<char>>), DiagV> {
    if id_text == "version"@ {
        if lit_text.len() < 2 {
            Err(DiagV { span: lit_span, message: "expected string literal"@, help: None })
        } else if !req_parses(unquoted(lit_text)) {
            Err(DiagV { span: lit_span, message: "invalid semver version"@, help: None })
        } else {
            Ok((Some(unquoted(lit_text)), rsn))
        }
    } else if id_text == "reason"@ {
        if lit_text.len() < 2 {
            Err(DiagV { span: lit_span, message: "expected string literal"@, help: None })
        } else {
            Ok((ver, Some(unquoted(lit_text))))
        }
    } else {
        Err(
            DiagV {
                span: lit_span,
                message: "unknown argument"@,
                help: Some("valid arguments are `version` and `reason`"@),
            },
        )
    }
}

/// The parse of the argument list `s` from position `i` on, with the pairs
/// seen so far accumulated in `ver` and `rsn`. End-of-stream errors are
/// anchored at `cs`, the overall call site, since no token remains to anchor
/// them.
pub open spec fn parse_args_spec(
    s: Seq<TokenTree>,
    i: int,
    ver: Option<Seq<char>>,
    rsn: Option<Seq<char>>,
    cs: Span,
) -> Result<ArgsV, DiagV>
    decreases s.len() - i,
{
    if i >= s.len() {
        match ver {
            None => Err(
                DiagV { span: cs, message: "missing required `version` argument"@, help: None },
            ),
            Some(v) => Ok(ArgsV { version: v, reason: rsn }),
        }
    } else {
        match s[i] {
            TokenTree::Ident(id) => {
                if i + 1 >= s.len() {
                    Err(
                        DiagV {
                            span: cs,
                            message: "unexpected end of tokens"@,
                            help: Some("expected `=`"@),
                        },
                    )
                } else if !(s[i + 1] matches TokenTree::Punct(p) && p.ch == '=') {
                    Err(DiagV { span: s[i + 1].spec_span(), message: "expected `=`"@, help: None })
                } else if i + 2 >= s.len() {
                    Err(
                        DiagV {
                            span: cs,
                            message: "unexpected end of tokens"@,
                            help: Some("expected literal"@),
                        },
                    )
                } else {
                    match s[i + 2] {
                        TokenTree::Literal(lit) => {
                            match apply_pair(id.text@, lit.text@, lit.span, ver, rsn) {
                                Err(d) => Err(d),
                                Ok(st) => {
                                    if i + 3 >= s.len() {
                                        parse_args_spec(s, i + 3, st.0, st.1, cs)
                                    } else if s[i + 3] matches TokenTree::Punct(q) && q.ch
                                        == ',' {
                                        parse_args_spec(s, i + 4, st.0, st.1, cs)
                                    } else {
                                        Err(
                                            DiagV {
                                                span: s[i + 3].spec_span(),
                                                message: "unexpected token"@,
                                                help: Some("expected end of tokens or `,`"@),
                                            },
                                        )
                                    }
                                },
                            }
                        },
                        t => Err(
                            DiagV { span: t.spec_span(), message: "expected literal"@, help: None },
                        ),
                    }
                }
            },
            t => Err(
                DiagV {
                    span: t.spec_span(),
                    message: "expected ident"@,
                    help: Some("valid arguments are `version` and `reason`"@),
                },
            ),
        }
    }
}

pub open spec fn opt_constraint_view(o: Option<VersionConstraint>) -> Option<Seq<char>> {
    match o {
        Some(c) => Some(c@),
        None => None,
    }
}

/// Parse an argument token sequence into a validated record, or the first
/// diagnostic the grammar earns. The result is exactly what
/// [`parse_args_spec`] says of the sequence.
pub fn parse_arguments(toks: &Vec<TokenTree>, call_site: Span) -> (r: Result<
    ParsedArgs,
    crate::diag::Diag,
>)
    ensures
        parse_result_view(r) == parse_args_spec(toks@, 0, None, None, call_site),
        r matches Ok(a) ==> a.version.wf(),
{
    let ghost s = toks@;
    let mut version: Option<VersionConstraint> = None;
    let mut reason: Option<String> = None;
    let mut i: usize = 0;
    while i < toks.len()
        invariant
            i <= toks.len(),
            toks@ == s,
            version matches Some(c) ==> c.wf(),
            parse_args_spec(s, 0, None, None, call_site) == parse_args_spec(
                s,
                i as int,
                opt_constraint_view(version),
                opt_string_view(reason),
                call_site,
            ),
        decreases toks.len() - i,
    {
        let id = match &toks[i] {
            TokenTree::Ident(id) => id,
            t => {
                return Err(
                    diag_with_help(
                        t.span(),
                        "expected ident",
                        "valid arguments are `version` and `reason`",
                    ),
                );
            },
        };
        if i + 1 >= toks.len() {
            return Err(diag_with_help(call_site, "unexpected end of tokens", "expected `=`"));
        }
        let t1 = &toks[i + 1];
        let t1_is_eq = match t1 {
            TokenTree::Punct(p) => p.ch == '=',
            _ => false,
        };
        if !t1_is_eq {
            return Err(diag_plain(t1.span(), "expected `=`"));
        }
        if i + 2 >= toks.len() {
            return Err(diag_with_help(call_site, "unexpected end of tokens", "expected literal"));
        }
        let lit = match &toks[i + 2] {
            TokenTree::Literal(lit) => lit,
            t => {
                return Err(diag_plain(t.span(), "expected literal"));
            },
        };
        let is_version = text_is(&id.text, "version");
        let is_reason = text_is(&id.text, "reason");
        if is_version || is_reason {
            let n = lit.text.as_str().unicode_len();
            if n < 2 {
                return Err(diag_plain(lit.span, "expected string literal"));
            }
            let raw = lit.text.as_str().substring_char(1, n - 1);
            assert(raw@ == unquoted(lit.text@));
            if is_version {
                if !req_parse_ok(raw) {
                    return Err(diag_plain(lit.span, "invalid semver version"));
                }
                version = Some(VersionConstraint { text: String::from_str(raw) });
            } else {
                reason = Some(String::from_str(raw));
            }
        } else {
            return Err(
                diag_with_help(
                    lit.span,
                    "unknown argument",
                    "valid arguments are `version` and `reason`",
                ),
            );
        }
        if i + 3 < toks.len() {
            let t3 = &toks[i + 3];
            let t3_is_comma = match t3 {
                TokenTree::Punct(q) => q.ch == ',',
                _ => false,
            };
            if !t3_is_comma {
                return Err(
                    diag_with_help(t3.span(), "unexpected token", "expected end of tokens or `,`"),
                );
            }
            i = i + 4;
        } else {
            i = i + 3;
        }
    }
    match version {
        None => Err(diag_plain(call_site, "missing required `version` argument")),
        Some(c) => Ok(ParsedArgs { version: c, reason }),
    }
}

} // verus!
