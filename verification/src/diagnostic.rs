//! Diagnostics: one immutable finding, made of a check code, a message and a
//! source span.

use vstd::prelude::*;

verus! {

/// A source-position range: byte offsets into the original source text,
/// `lo` inclusive, `hi` exclusive.
#[derive(Clone, Copy, Debug, PartialEq, Eq, Structural)]
pub struct Span {
    pub lo: u32,
    pub hi: u32,
}

/// One finding reported by a check: which check fired, a human-readable
/// message, and where in the source it applies.
#[derive(Debug)]
pub struct Diagnostic {
    pub code: String,
    pub message: String,
    pub span: Span,
}

/// The mathematical value of a `Diagnostic`: its strings as character
/// sequences, its span as it stands.
pub ghost struct DiagView {
    pub code: Seq<char>,
    pub message: Seq<char>,
    pub span: Span,
}

impl View for Diagnostic {
    type V = DiagView;

    open spec fn view(&self) -> DiagView {
        DiagView { code: self.code@, message: self.message@, span: self.span }
    }
}

} // verus!
