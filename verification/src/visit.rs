//! The traversal engine: a single pre-order walk over the tree that, at each
//! node, dispatches to the callback the running check registered for that
//! node's kind. A check with no callback for a kind is silently skipped
//! there. The walk's contract pins the sink's growth exactly: what a run
//! appends is a function of the check and the tree alone.

use vstd::prelude::*;

use crate::ast::Node;
use crate::context::Context;
use crate::diagnostic::{DiagView, Span};

verus! {

/// The per-kind callback interface a check registers with the traversal
/// engine. Of the node kinds here, only array literals have a callback;
/// the engine skips a check at every other kind.
pub trait Visit: Sized {
    /// What one visit of an array literal appends to the sink: the
    /// callback's behaviour as a mathematical function of the node alone.
    spec fn array_lit_diags(self, span: Span, elems: Seq<Option<Node>>) -> Seq<DiagView>;

    /// The callback invoked at each array-literal node.
    fn visit_array_lit(&self, context: &mut Context, span: Span, elems: &Vec<Option<Node>>)
        ensures
            final(context)@ == old(context)@ + self.array_lit_diags(span, elems@),
    ;
}

/// Everything the check `v` appends over one pre-order walk of the tree
/// rooted at `n`: the node's own callback output first, then its children's,
/// left to right.
pub open spec fn node_diags<V: Visit>(v: V, n: Node) -> Seq<DiagView>
    decreases n, 0int,
{
    match n {
        Node::Module { body, .. } => list_diags(v, body@),
        Node::ArrayLit { span, elems } => v.array_lit_diags(span, elems@) + elems_diags(
            v,
            elems@,
        ),
        Node::Other { children, .. } => list_diags(v, children@),
    }
}

/// What the check appends over a list of sibling nodes, left to right.
pub open spec fn list_diags<V: Visit>(v: V, ns: Seq<Node>) -> Seq<DiagView>
    decreases ns, 1int,
{
    if ns.len() == 0 {
        Seq::empty()
    } else {
        node_diags(v, ns[0]) + list_diags(v, ns.drop_first())
    }
}

/// What the check appends over an array literal's element slots, left to
/// right; an elided slot has no node to visit and contributes nothing.
pub open spec fn elems_diags<V: Visit>(v: V, es: Seq<Option<Node>>) -> Seq<DiagView>
    decreases es, 1int,
{
    if es.len() == 0 {
        Seq::empty()
    } else {
        (match es[0] {
            Some(child) => node_diags(v, child),
            None => Seq::empty(),
        }) + elems_diags(v, es.drop_first())
    }
}

/// Extending a sibling list on the right appends that node's output on the
/// right.
proof fn lemma_list_diags_push<V: Visit>(v: V, ns: Seq<Node>, n: Node)
    ensures
        list_diags(v, ns.push(n)) == list_diags(v, ns) + node_diags(v, n),
    decreases ns.len(),
{
    if ns.len() == 0 {
        assert(ns.push(n)[0] == n);
        assert(ns.push(n).drop_first() =~= Seq::<Node>::empty());
        assert(list_diags(v, Seq::<Node>::empty()) == Seq::<DiagView>::empty());
        assert(list_diags(v, ns.push(n)) =~= list_diags(v, ns) + node_diags(v, n));
    } else {
        assert(ns.push(n)[0] == ns[0]);
        assert(ns.push(n).drop_first() =~= ns.drop_first().push(n));
        lemma_list_diags_push(v, ns.drop_first(), n);
        assert((node_diags(v, ns[0]) + list_diags(v, ns.drop_first())) + node_diags(v, n) =~= node_diags(
            v,
            ns[0],
        ) + (list_diags(v, ns.drop_first()) + node_diags(v, n)));
        assert(list_diags(v, ns.push(n)) =~= list_diags(v, ns) + node_diags(v, n));
    }
}

/// Extending an element-slot list on the right appends that slot's output on
/// the right.
proof fn lemma_elems_diags_push<V: Visit>(v: V, es: Seq<Option<Node>>, e: Option<Node>)
    ensures
        elems_diags(v, es.push(e)) == elems_diags(v, es) + (match e {
            Some(child) => node_diags(v, child),
            None => Seq::<DiagView>::empty(),
        }),
    decreases es.len(),
{
    let slot = (match e {
        Some(child) => node_diags(v, child),
        None => Seq::<DiagView>::empty(),
    });
    if es.len() == 0 {
        assert(es.push(e)[0] == e);
        assert(es.push(e).drop_first() =~= Seq::<Option<Node>>::empty());
        assert(elems_diags(v, Seq::<Option<Node>>::empty()) == Seq::<DiagView>::empty());
        assert(elems_diags(v, es.push(e)) =~= elems_diags(v, es) + slot);
    } else {
        let head = (match es[0] {
            Some(child) => node_diags(v, child),
            None => Seq::<DiagView>::empty(),
        });
        assert(es.push(e)[0] == es[0]);
        assert(es.push(e).drop_first() =~= es.drop_first().push(e));
        lemma_elems_diags_push(v, es.drop_first(), e);
        assert((head + elems_diags(v, es.drop_first())) + slot =~= head + (elems_diags(
            v,
            es.drop_first(),
        ) + slot));
        assert(elems_diags(v, es.push(e)) =~= elems_diags(v, es) + slot);
    }
}

/// Walks the tree rooted at `node` once, pre-order, parent before children
/// and children left to right, dispatching to `v`'s callbacks by node kind.
/// The sink afterwards holds exactly what it held before plus what the check
/// emits for this tree, in traversal order.
pub fn walk<V: Visit>(v: &V, context: &mut Context, node: &Node)
    ensures
        final(context)@ == old(context)@ + node_diags(*v, *node),
    decreases *node, 0int,
{
    match node {
        Node::Module { body, .. } => {
            walk_list(v, context, body);
        },
        Node::ArrayLit { span, elems } => {
            v.visit_array_lit(context, *span, elems);
            walk_elems(v, context, elems);
            proof {
                assert(context@ =~= old(context)@ + node_diags(*v, *node));
            }
        },
        Node::Other { children, .. } => {
            walk_list(v, context, children);
        },
    }
}

/// Walks a list of sibling nodes left to right.
fn walk_list<V: Visit>(v: &V, context: &mut Context, ns: &Vec<Node>)
    ensures
        final(context)@ == old(context)@ + list_diags(*v, ns@),
    decreases ns@, 1int,
{
    let ghost base = context@;
    let mut i: usize = 0;
    proof {
        assert(ns@.subrange(0, 0) =~= Seq::<Node>::empty());
    }
    while i < ns.len()
        invariant
            i <= ns.len(),
            context@ == base + list_diags(*v, ns@.subrange(0, i as int)),
        decreases ns.len() - i,
    {
        walk(v, context, &ns[i]);
        proof {
            assert(ns@.subrange(0, i + 1) =~= ns@.subrange(0, i as int).push(ns@[i as int]));
            lemma_list_diags_push(*v, ns@.subrange(0, i as int), ns@[i as int]);
            assert(context@ =~= base + list_diags(*v, ns@.subrange(0, i + 1)));
        }
        i = i + 1;
    }
    proof {
        assert(ns@.subrange(0, ns@.len() as int) =~= ns@);
    }
}

/// Walks the present elements of an array literal left to right; elided
/// slots have nothing to visit.
fn walk_elems<V: Visit>(v: &V, context: &mut Context, es: &Vec<Option<Node>>)
    ensures
        final(context)@ == old(context)@ + elems_diags(*v, es@),
    decreases es@, 1int,
{
    let ghost base = context@;
    let mut i: usize = 0;
    proof {
        assert(es@.subrange(0, 0) =~= Seq::<Option<Node>>::empty());
    }
    while i < es.len()
        invariant
            i <= es.len(),
            context@ == base + elems_diags(*v, es@.subrange(0, i as int)),
        decreases es.len() - i,
    {
        match &es[i] {
            Some(child) => {
                walk(v, context, child);
            },
            None => {},
        }
        proof {
            assert(es@.subrange(0, i + 1) =~= es@.subrange(0, i as int).push(es@[i as int]));
            lemma_elems_diags_push(*v, es@.subrange(0, i as int), es@[i as int]);
            assert(context@ =~= base + elems_diags(*v, es@.subrange(0, i + 1)));
        }
        i = i + 1;
    }
    proof {
        assert(es@.subrange(0, es@.len() as int) =~= es@);
    }
}

} // verus!
