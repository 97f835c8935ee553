//! The syntax tree the linter walks: an immutable tree whose nodes carry a
//! kind tag and a source span. Array-literal nodes expose their element
//! slots, each of which is either present (with the element's own node) or
//! elided. Every other node kind only carries its children.

use vstd::prelude::*;

use crate::diagnostic::Span;

verus! {

/// One node of the syntax tree, tagged by kind. The tree is produced by an
/// external parser and consumed read-only; the traversal engine dispatches
/// on the kind tag.
pub enum Node {
    /// The module (program) root.
    Module { span: Span, body: Vec<Node> },
    /// An array literal. Each element slot is either `Some` present element
    /// or `None` for a true elision (a gap between commas).
    ArrayLit { span: Span, elems: Vec<Option<Node>> },
    /// Any node kind no check here is interested in; it still carries its
    /// children so that the traversal reaches every node.
    Other { span: Span, children: Vec<Node> },
}

/// An element list is sparse when at least one slot is elided.
pub open spec fn is_sparse(elems: Seq<Option<Node>>) -> bool {
    exists|i: int| 0 <= i < elems.len() && elems[i] is None
}

/// The spans of the sparse array literals of the tree rooted at `n`, in
/// pre-order: a literal's own span comes before any found among its
/// elements, and siblings keep their left-to-right source order.
pub open spec fn sparse_spans(n: Node) -> Seq<Span>
    decreases n, 0int,
{
    match n {
        Node::Module { body, .. } => sparse_spans_list(body@),
        Node::ArrayLit { span, elems } => {
            (if is_sparse(elems@) {
                seq![span]
            } else {
                Seq::empty()
            }) + sparse_spans_elems(elems@)
        },
        Node::Other { children, .. } => sparse_spans_list(children@),
    }
}

/// Pre-order sparse-literal spans of a list of sibling nodes.
pub open spec fn sparse_spans_list(ns: Seq<Node>) -> Seq<Span>
    decreases ns, 1int,
{
    if ns.len() == 0 {
        Seq::empty()
    } else {
        sparse_spans(ns[0]) + sparse_spans_list(ns.drop_first())
    }
}

/// Pre-order sparse-literal spans found inside an array literal's element
/// slots; an elided slot contributes nothing.
pub open spec fn sparse_spans_elems(es: Seq<Option<Node>>) -> Seq<Span>
    decreases es, 1int,
{
    if es.len() == 0 {
        Seq::empty()
    } else {
        (match es[0] {
            Some(child) => sparse_spans(child),
            None => Seq::empty(),
        }) + sparse_spans_elems(es.drop_first())
    }
}

/// How many sparse array literals the tree rooted at `n` contains.
pub open spec fn count_sparse(n: Node) -> nat
    decreases n, 0int,
{
    match n {
        Node::Module { body, .. } => count_sparse_list(body@),
        Node::ArrayLit { elems, .. } => (if is_sparse(elems@) {
            1nat
        } else {
            0nat
        }) + count_sparse_elems(elems@),
        Node::Other { children, .. } => count_sparse_list(children@),
    }
}

/// Sparse array literals contained in a list of sibling nodes.
pub open spec fn count_sparse_list(ns: Seq<Node>) -> nat
    decreases ns, 1int,
{
    if ns.len() == 0 {
        0nat
    } else {
        count_sparse(ns[0]) + count_sparse_list(ns.drop_first())
    }
}

/// Sparse array literals contained in an array literal's element slots.
pub open spec fn count_sparse_elems(es: Seq<Option<Node>>) -> nat
    decreases es, 1int,
{
    if es.len() == 0 {
        0nat
    } else {
        (match es[0] {
            Some(child) => count_sparse(child),
            None => 0nat,
        }) + count_sparse_elems(es.drop_first())
    }
}

/// Whether the tree rooted at `n` contains any array-literal node at all.
pub open spec fn contains_array_lit(n: Node) -> bool
    decreases n, 0int,
{
    match n {
        Node::Module { body, .. } => contains_array_lit_list(body@),
        Node::ArrayLit { .. } => true,
        Node::Other { children, .. } => contains_array_lit_list(children@),
    }
}

/// Whether any node of a list of siblings contains an array literal.
pub open spec fn contains_array_lit_list(ns: Seq<Node>) -> bool
    decreases ns, 1int,
{
    if ns.len() == 0 {
        false
    } else {
        contains_array_lit(ns[0]) || contains_array_lit_list(ns.drop_first())
    }
}

/// The spans of sparse literals, counted, agree with `count_sparse`.
pub proof fn lemma_sparse_spans_count(n: Node)
    ensures
        sparse_spans(n).len() == count_sparse(n),
    decreases n, 0int,
{
    match n {
        Node::Module { body, .. } => {
            lemma_sparse_spans_count_list(body@);
        },
        Node::ArrayLit { span, elems } => {
            lemma_sparse_spans_count_elems(elems@);
        },
        Node::Other { children, .. } => {
            lemma_sparse_spans_count_list(children@);
        },
    }
}

/// List version of `lemma_sparse_spans_count`.
pub proof fn lemma_sparse_spans_count_list(ns: Seq<Node>)
    ensures
        sparse_spans_list(ns).len() == count_sparse_list(ns),
    decreases ns, 1int,
{
    if ns.len() != 0 {
        lemma_sparse_spans_count(ns[0]);
        lemma_sparse_spans_count_list(ns.drop_first());
    }
}

/// Element-slot version of `lemma_sparse_spans_count`.
pub proof fn lemma_sparse_spans_count_elems(es: Seq<Option<Node>>)
    ensures
        sparse_spans_elems(es).len() == count_sparse_elems(es),
    decreases es, 1int,
{
    if es.len() != 0 {
        match es[0] {
            Some(child) => {
                lemma_sparse_spans_count(child);
            },
            None => {},
        }
        lemma_sparse_spans_count_elems(es.drop_first());
    }
}

} // verus!
