//! The check interface: every check exposes an identifying code and an entry
//! point that receives the shared sink and the root of the tree to examine.
//! The driver holds a set of checks behind this one interface and invokes
//! each uniformly.

pub mod no_sparse_array;

use vstd::prelude::*;

use crate::ast::Node;
use crate::context::Context;
use crate::diagnostic::DiagView;

verus! {

/// The capability every check implements. A check holds no state across
/// runs: `lint_module` is, in effect, a function of the tree alone, and its
/// contract says exactly what one run appends to the sink.
pub trait LintRule: Sized {
    /// The check's stable identifying code, as a character sequence.
    spec fn spec_code(&self) -> Seq<char>;

    /// What one run of this check over the tree rooted at `module` appends
    /// to the sink.
    spec fn module_diags(&self, module: Node) -> Seq<DiagView>;

    /// A fresh instance of the check.
    fn new() -> (rule: Box<Self>);

    /// The identifying code used for enabling the check and for stamping
    /// its diagnostics.
    fn code(&self) -> (code: &'static str)
        ensures
            code@ == self.spec_code(),
    ;

    /// Runs the check once over the tree rooted at `module`, appending its
    /// findings to the shared sink and touching nothing else there.
    fn lint_module(&self, context: &mut Context, module: &Node)
        ensures
            final(context)@ == old(context)@ + self.module_diags(*module),
    ;
}

} // verus!
