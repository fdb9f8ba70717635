//! The token-tree model the parser and the locator work on.
//!
//! A token is an identifier, a single punctuation character, a literal (its
//! text still carries the quoting delimiters), or a delimited group holding a
//! nested token sequence. Every token carries a source span; spans from one
//! stream can always be joined into a span covering both.

use vstd::prelude::*;
use vstd::string::StringExecFns;

verus! {

/// Whether a token's text equals a given keyword.
pub fn text_is(s: &String, t: &str) -> (b: bool)
    ensures
        b == (s@ == t@),
{
    let other = String::from_str(t);
    *s == other
}

/// A source-location range, as byte offsets into one source text.
#[derive(Clone, Copy, PartialEq, Eq, Structural, Debug)]
pub struct Span {
    pub lo: usize,
    pub hi: usize,
}

impl Span {
    /// The union of two spans: the smallest range covering both.
    pub open spec fn spec_join(self, other: Span) -> Span {
        Span {
            lo: if self.lo <= other.lo {
                self.lo
            } else {
                other.lo
            },
            hi: if self.hi >= other.hi {
                self.hi
            } else {
                other.hi
            },
        }
    }

    pub fn join(self, other: Span) -> (r: Span)
        ensures
            r == self.spec_join(other),
    {
        Span {
            lo: if self.lo <= other.lo {
                self.lo
            } else {
                other.lo
            },
            hi: if self.hi >= other.hi {
                self.hi
            } else {
                other.hi
            },
        }
    }
}

/// A bare word, such as an argument key or the marker name.
#[derive(Debug, Clone, PartialEq, Eq)]
pub struct Ident {
    pub text: String,
    pub span: Span,
}

/// One punctuation character, such as `=`, `,` or `#`.
#[derive(Debug, Clone, PartialEq, Eq)]
pub struct Punct {
    pub ch: char,
    pub span: Span,
}

/// A literal token; its text includes the surrounding delimiters, so the
/// string literal `"x"` has the three-character text `"x"`.
#[derive(Debug, Clone, PartialEq, Eq)]
pub struct Literal {
    pub text: String,
    pub span: Span,
}

/// A delimited sub-sequence of tokens.
#[derive(Debug, PartialEq, Eq)]
pub struct Group {
    pub tokens: Vec<TokenTree>,
    pub span: Span,
}

#[derive(Debug, PartialEq, Eq)]
pub enum TokenTree {
    Ident(Ident),
    Punct(Punct),
    Literal(Literal),
    Group(Group),
}

impl TokenTree {
    /// The span of the token itself (for a group, of the whole group).
    pub open spec fn spec_span(self) -> Span {
        match self {
            TokenTree::Ident(t) => t.span,
            TokenTree::Punct(t) => t.span,
            TokenTree::Literal(t) => t.span,
            TokenTree::Group(t) => t.span,
        }
    }

    pub fn span(&self) -> (r: Span)
        ensures
            r == self.spec_span(),
    {
        match self {
            TokenTree::Ident(t) => t.span,
            TokenTree::Punct(t) => t.span,
            TokenTree::Literal(t) => t.span,
            TokenTree::Group(t) => t.span,
        }
    }
}

} // verus!
