//! The worked example check: flag array literals that contain elided
//! ("sparse") elements. A literal with at least one true elision gets
//! exactly one diagnostic, spanning the whole literal; explicit `null` or
//! `undefined` elements are present, not elided, and are never flagged.

use vstd::prelude::*;

use crate::ast::{
    contains_array_lit, contains_array_lit_list, count_sparse, is_sparse, lemma_sparse_spans_count,
    sparse_spans, sparse_spans_elems, sparse_spans_list, Node,
};
use crate::context::Context;
use crate::diagnostic::{DiagView, Span};
use crate::rules::LintRule;
use crate::visit::{elems_diags, list_diags, node_diags, walk, Visit};

verus! {

/// The sparse-array check.
pub struct NoSparseArray;

/// The one diagnostic this check ever emits: its fixed code and message,
/// stamped onto the flagged literal's full span.
pub open spec fn sparse_array_diag(span: Span) -> DiagView {
    DiagView { code: "no-sparse-array"@, message: "Sparse arrays are not allowed"@, span }
}

/// What one run of the sparse-array check over the tree rooted at `module`
/// appends to the sink.
pub open spec fn no_sparse_array_diags(module: Node) -> Seq<DiagView> {
    node_diags(NoSparseArrayVisitor {  }, module)
}

impl LintRule for NoSparseArray {
    open spec fn spec_code(&self) -> Seq<char> {
        "no-sparse-array"@
    }

    open spec fn module_diags(&self, module: Node) -> Seq<DiagView> {
        no_sparse_array_diags(module)
    }

    fn new() -> (rule: Box<NoSparseArray>) {
        Box::new(NoSparseArray)
    }

    fn code(&self) -> (code: &'static str) {
        "no-sparse-array"
    }

    fn lint_module(&self, context: &mut Context, module: &Node) {
        let visitor = NoSparseArrayVisitor::new();
        walk(&visitor, context, module);
    }
}

/// The per-run visitor of the sparse-array check. It is stateless: each run
/// constructs a fresh one and discards it afterwards.
pub struct NoSparseArrayVisitor {}

impl NoSparseArrayVisitor {
    /// A fresh visitor for one run.
    pub fn new() -> (visitor: NoSparseArrayVisitor)
        ensures
            visitor == (NoSparseArrayVisitor {  }),
    {
        NoSparseArrayVisitor {  }
    }
}

/// Whether any element slot of the literal is elided.
fn has_elision(elems: &Vec<Option<Node>>) -> (found: bool)
    ensures
        found == is_sparse(elems@),
{
    let mut i: usize = 0;
    while i < elems.len()
        invariant
            i <= elems.len(),
            forall|j: int| 0 <= j < i ==> elems@[j] is Some,
        decreases elems.len() - i,
    {
        if elems[i].is_none() {
            proof {
                assert(elems@[i as int] is None);
            }
            return true;
        }
        i = i + 1;
    }
    false
}

impl Visit for NoSparseArrayVisitor {
    open spec fn array_lit_diags(self, span: Span, elems: Seq<Option<Node>>) -> Seq<DiagView> {
        if is_sparse(elems) {
            seq![sparse_array_diag(span)]
        } else {
            Seq::empty()
        }
    }

    fn visit_array_lit(&self, context: &mut Context, span: Span, elems: &Vec<Option<Node>>) {
        if has_elision(elems) {
            context.add_diagnostic(span, "no-sparse-array", "Sparse arrays are not allowed");
            proof {
                assert(context@ =~= old(context)@ + self.array_lit_diags(span, elems@));
            }
        } else {
            proof {
                assert(context@ =~= old(context)@ + self.array_lit_diags(span, elems@));
            }
        }
    }
}

/// The spans of `spans`, each stamped with the check's fixed code and
/// message.
pub open spec fn stamp_spans(spans: Seq<Span>) -> Seq<DiagView> {
    spans.map_values(|span: Span| sparse_array_diag(span))
}

proof fn lemma_stamp_spans_add(a: Seq<Span>, b: Seq<Span>)
    ensures
        stamp_spans(a + b) == stamp_spans(a) + stamp_spans(b),
{
    assert(stamp_spans(a + b) =~= stamp_spans(a) + stamp_spans(b));
}

/// An array literal with no elided element slot is not flagged: visiting it
/// appends nothing to the sink.
pub proof fn lemma_no_elision_not_flagged(span: Span, elems: Seq<Option<Node>>)
    requires
        forall|i: int| 0 <= i < elems.len() ==> elems[i] is Some,
    ensures
        (NoSparseArrayVisitor {  }).array_lit_diags(span, elems) == Seq::<DiagView>::empty(),
{
    assert(!is_sparse(elems));
}

/// An array literal with at least one elided element slot is flagged exactly
/// once, however many slots are elided: one diagnostic, carrying the check's
/// code and message, whose span is the literal's full span.
pub proof fn lemma_sparse_literal_flagged_once(span: Span, elems: Seq<Option<Node>>)
    requires
        exists|i: int| 0 <= i < elems.len() && elems[i] is None,
    ensures
        (NoSparseArrayVisitor {  }).array_lit_diags(span, elems).len() == 1,
        (NoSparseArrayVisitor {  }).array_lit_diags(span, elems)[0] == sparse_array_diag(span),
{
    assert(is_sparse(elems));
}

/// Determinism: two runs of the check over the same tree produce element-wise
/// identical diagnostic collections — what a run appends is a function of the
/// tree alone, with no hidden state carried between runs.
pub proof fn lemma_two_runs_identical(module: Node, first: Seq<DiagView>, second: Seq<DiagView>)
    requires
        first == no_sparse_array_diags(module),
        second == no_sparse_array_diags(module),
    ensures
        first == second,
        first.len() == second.len(),
        forall|i: int| 0 <= i < first.len() ==> first[i] == second[i],
{
}

/// Order stability: one run's diagnostics are exactly the sparse literals'
/// spans in pre-order (source) order, each stamped with the check's code and
/// message.
pub proof fn lemma_diags_in_source_order(n: Node)
    ensures
        no_sparse_array_diags(n) == stamp_spans(sparse_spans(n)),
    decreases n, 0int,
{
    let v = NoSparseArrayVisitor {  };
    match n {
        Node::Module { body, .. } => {
            lemma_diags_in_source_order_list(body@);
        },
        Node::ArrayLit { span, elems } => {
            lemma_diags_in_source_order_elems(elems@);
            let here_spans = if is_sparse(elems@) {
                seq![span]
            } else {
                Seq::<Span>::empty()
            };
            lemma_stamp_spans_add(here_spans, sparse_spans_elems(elems@));
            assert(stamp_spans(here_spans) =~= v.array_lit_diags(span, elems@));
        },
        Node::Other { children, .. } => {
            lemma_diags_in_source_order_list(children@);
        },
    }
}

proof fn lemma_diags_in_source_order_list(ns: Seq<Node>)
    ensures
        list_diags(NoSparseArrayVisitor {  }, ns) == stamp_spans(sparse_spans_list(ns)),
    decreases ns, 1int,
{
    if ns.len() == 0 {
        assert(stamp_spans(sparse_spans_list(ns)) =~= Seq::<DiagView>::empty());
    } else {
        lemma_diags_in_source_order(ns[0]);
        lemma_diags_in_source_order_list(ns.drop_first());
        lemma_stamp_spans_add(sparse_spans(ns[0]), sparse_spans_list(ns.drop_first()));
    }
}

proof fn lemma_diags_in_source_order_elems(es: Seq<Option<Node>>)
    ensures
        elems_diags(NoSparseArrayVisitor {  }, es) == stamp_spans(sparse_spans_elems(es)),
    decreases es, 1int,
{
    if es.len() == 0 {
        assert(stamp_spans(sparse_spans_elems(es)) =~= Seq::<DiagView>::empty());
    } else {
        match es[0] {
            Some(child) => {
                lemma_diags_in_source_order(child);
                lemma_diags_in_source_order_elems(es.drop_first());
                lemma_stamp_spans_add(sparse_spans(child), sparse_spans_elems(es.drop_first()));
            },
            None => {
                lemma_diags_in_source_order_elems(es.drop_first());
                lemma_stamp_spans_add(Seq::<Span>::empty(), sparse_spans_elems(es.drop_first()));
                assert(stamp_spans(Seq::<Span>::empty()) =~= Seq::<DiagView>::empty());
            },
        }
    }
}

/// Traversal completeness: over a tree containing M sparse array literals,
/// one run of the check yields exactly M diagnostics — one per sparse
/// literal, independent of nesting depth or position.
pub proof fn lemma_one_diagnostic_per_sparse_literal(module: Node)
    ensures
        no_sparse_array_diags(module).len() == count_sparse(module),
{
    lemma_diags_in_source_order(module);
    lemma_sparse_spans_count(module);
}

/// Non-interference: over a tree containing no array literal at all, one run
/// of the check appends nothing, leaving the sink's contents unchanged.
pub proof fn lemma_no_array_lit_appends_nothing(n: Node)
    requires
        !contains_array_lit(n),
    ensures
        no_sparse_array_diags(n) == Seq::<DiagView>::empty(),
    decreases n, 0int,
{
    match n {
        Node::Module { body, .. } => {
            lemma_no_array_lit_appends_nothing_list(body@);
        },
        Node::ArrayLit { .. } => {
            assert(false);
        },
        Node::Other { children, .. } => {
            lemma_no_array_lit_appends_nothing_list(children@);
        },
    }
}

proof fn lemma_no_array_lit_appends_nothing_list(ns: Seq<Node>)
    requires
        !contains_array_lit_list(ns),
    ensures
        list_diags(NoSparseArrayVisitor {  }, ns) == Seq::<DiagView>::empty(),
    decreases ns, 1int,
{
    if ns.len() != 0 {
        lemma_no_array_lit_appends_nothing(ns[0]);
        lemma_no_array_lit_appends_nothing_list(ns.drop_first());
        assert(list_diags(NoSparseArrayVisitor {  }, ns) =~= Seq::<DiagView>::empty());
    }
}

} // verus!
