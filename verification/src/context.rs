//! The diagnostic sink: one `Context` exists per analysis run, is shared by
//! every check invoked during that run, accumulates diagnostics append-only,
//! and is handed off wholesale to the reporter at run end.

use vstd::prelude::*;

use crate::diagnostic::{DiagView, Diagnostic, Span};

verus! {

/// The run-scoped collector of diagnostics. Checks only append to it;
/// the driver drains it once, after the traversal completes.
pub struct Context {
    diagnostics: Vec<Diagnostic>,
}

impl View for Context {
    type V = Seq<DiagView>;

    /// The sink's mathematical value: the sequence of findings recorded so
    /// far, in detection order.
    closed spec fn view(&self) -> Seq<DiagView> {
        self.diagnostics@.map_values(|d: Diagnostic| d@)
    }
}

impl Context {
    /// A fresh sink for one analysis run, with no findings yet.
    pub fn new() -> (context: Context)
        ensures
            context@ == Seq::<DiagView>::empty(),
    {
        let context = Context { diagnostics: Vec::new() };
        proof {
            assert(context@ =~= Seq::<DiagView>::empty());
        }
        context
    }

    /// Appends one finding. Never fails, never deduplicates, never reorders:
    /// the new finding simply follows everything recorded before it.
    pub fn add_diagnostic(&mut self, span: Span, code: &str, message: &str)
        ensures
            final(self)@ == old(self)@.push(DiagView { code: code@, message: message@, span }),
    {
        let diagnostic = Diagnostic { code: code.to_owned(), message: message.to_owned(), span };
        self.diagnostics.push(diagnostic);
        proof {
            assert(self@ =~= old(self)@.push(DiagView { code: code@, message: message@, span }));
        }
    }

    /// How many findings have been recorded so far.
    pub fn len(&self) -> (n: usize)
        ensures
            n == self@.len(),
    {
        self.diagnostics.len()
    }

    /// Hands the accumulated findings to the reporter, consuming the sink:
    /// a run's context is drained exactly once, at run end.
    pub fn drain(self) -> (diagnostics: Vec<Diagnostic>)
        ensures
            diagnostics@.map_values(|d: Diagnostic| d@) == self@,
    {
        self.diagnostics
    }
}

} // verus!
