//! Diagnostics: a source-anchored error with a primary message and an
//! optional help note. Emitting them is the caller's business; the library
//! only builds and returns them.

use vstd::prelude::*;
use vstd::string::StringExecFns;

use crate::tokens::Span;

verus! {

/// An error-level diagnostic: an anchor span, a primary message, and an
/// optional secondary help message.
#[derive(Debug, Clone, PartialEq, Eq)]
pub struct Diag {
    pub span: Span,
    pub message: String,
    pub help: Option<String>,
}

/// The mathematical shape of a diagnostic.
pub struct DiagV {
    pub span: Span,
    pub message: Seq<char>,
    pub help: Option<Seq<char>>,
}

impl View for Diag {
    type V = DiagV;

    open spec fn view(&self) -> DiagV {
        DiagV {
            span: self.span,
            message: self.message@,
            help: if self.help is Some {
                Some(self.help->0@)
            } else {
                None
            },
        }
    }
}

pub open spec fn opt_diag_view(o: Option<Diag>) -> Option<DiagV> {
    match o {
        Some(d) => Some(d@),
        None => None,
    }
}

pub open spec fn opt_string_view(o: Option<String>) -> Option<Seq<char>> {
    match o {
        Some(s) => Some(s@),
        None => None,
    }
}

pub open spec fn opt_str_view(o: Option<&str>) -> Option<Seq<char>> {
    match o {
        Some(s) => Some(s@),
        None => None,
    }
}

/// A diagnostic with a primary message only.
pub fn diag_plain(span: Span, message: &str) -> (d: Diag)
    ensures
        d@ == (DiagV { span, message: message@, help: None }),
{
    Diag { span, message: String::from_str(message), help: None }
}

/// A diagnostic with a primary message and a help note.
pub fn diag_with_help(span: Span, message: &str, help: &str) -> (d: Diag)
    ensures
        d@ == (DiagV { span, message: message@, help: Some(help@) }),
{
    Diag { span, message: String::from_str(message), help: Some(String::from_str(help)) }
}

} // verus!
