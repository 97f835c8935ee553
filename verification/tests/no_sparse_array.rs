//! End-to-end tests of the sparse-array check: source text goes through the
//! external parser, the resulting tree is converted into the core's model,
//! and one run of the check is made over it.

use lint_core::ast::Node;
use lint_core::context::Context;
use lint_core::diagnostic::{Diagnostic, Span};
use lint_core::rules::no_sparse_array::{NoSparseArray, NoSparseArrayVisitor};
use lint_core::rules::LintRule;
use lint_core::visit::walk;

use swc_common::{BytePos, Spanned};
use swc_ecmascript::ast as js_ast;
use swc_ecmascript::parser::lexer::Lexer;
use swc_ecmascript::parser::{Parser, StringInput, Syntax};

// The parser is fed byte positions starting at 1 (0 is its dummy position);
// subtracting the base gives plain offsets into the source string.
const BASE: u32 = 1;

fn parse_module(source: &str) -> js_ast::Module {
    let lexer = Lexer::new(
        Syntax::Es(Default::default()),
        Default::default(),
        StringInput::new(source, BytePos(BASE), BytePos(BASE + source.len() as u32)),
        None,
    );
    let mut parser = Parser::new_from(lexer);
    parser.parse_module().expect("test source should parse")
}

fn convert_span(span: swc_common::Span) -> Span {
    Span {
        lo: span.lo.0 - BASE,
        hi: span.hi.0 - BASE,
    }
}

fn convert_expr(expr: &js_ast::Expr) -> Node {
    match expr {
        js_ast::Expr::Array(array_lit) => Node::ArrayLit {
            span: convert_span(array_lit.span),
            elems: array_lit
                .elems
                .iter()
                .map(|slot| slot.as_ref().map(|element| convert_expr(&element.expr)))
                .collect(),
        },
        js_ast::Expr::Paren(paren) => Node::Other {
            span: convert_span(paren.span),
            children: vec![convert_expr(&paren.expr)],
        },
        other => Node::Other {
            span: convert_span(other.span()),
            children: Vec::new(),
        },
    }
}

fn convert_stmt(stmt: &js_ast::Stmt) -> Node {
    match stmt {
        js_ast::Stmt::Decl(js_ast::Decl::Var(var_decl)) => Node::Other {
            span: convert_span(var_decl.span),
            children: var_decl
                .decls
                .iter()
                .filter_map(|declarator| declarator.init.as_deref())
                .map(convert_expr)
                .collect(),
        },
        js_ast::Stmt::Expr(expr_stmt) => Node::Other {
            span: convert_span(expr_stmt.span),
            children: vec![convert_expr(&expr_stmt.expr)],
        },
        other => Node::Other {
            span: convert_span(other.span()),
            children: Vec::new(),
        },
    }
}

fn convert_module(module: &js_ast::Module) -> Node {
    Node::Module {
        span: convert_span(module.span),
        body: module
            .body
            .iter()
            .map(|item| match item {
                js_ast::ModuleItem::Stmt(stmt) => convert_stmt(stmt),
                js_ast::ModuleItem::ModuleDecl(decl) => Node::Other {
                    span: convert_span(decl.span()),
                    children: Vec::new(),
                },
            })
            .collect(),
    }
}

fn lint<R: LintRule>(source: &str) -> Vec<Diagnostic> {
    let tree = convert_module(&parse_module(source));
    let rule = R::new();
    let mut context = Context::new();
    rule.lint_module(&mut context, &tree);
    context.drain()
}

fn assert_lint_ok<R: LintRule>(source: &str) {
    let diagnostics = lint::<R>(source);
    assert_eq!(diagnostics.len(), 0);
}

fn assert_lint_err<R: LintRule>(source: &str, start: u32) {
    let diagnostics = lint::<R>(source);
    assert_eq!(diagnostics.len(), 1);
    assert_eq!(diagnostics[0].span.lo, start);
    assert_eq!(diagnostics[0].code, "no-sparse-array");
    assert_eq!(diagnostics[0].message, "Sparse arrays are not allowed");
}

#[test]
fn no_sparse_array_test() {
    assert_lint_ok::<NoSparseArray>("const sparseArray1 = [1,null,3];");
    assert_lint_err::<NoSparseArray>("const sparseArray = [1,,3];", 20);
}

#[test]
fn explicit_null_and_full_arrays_are_clean() {
    assert_lint_ok::<NoSparseArray>("const a = [1, null, 3];");
    assert_lint_ok::<NoSparseArray>("const a = [1, 2, 3];");
    assert_lint_ok::<NoSparseArray>("const a = [undefined];");
}

#[test]
fn empty_array_is_clean() {
    assert_lint_ok::<NoSparseArray>("const a = [];");
}

#[test]
fn one_elision_is_one_diagnostic() {
    assert_lint_err::<NoSparseArray>("const a = [1, , 3];", 10);
}

#[test]
fn many_elisions_are_still_one_diagnostic() {
    assert_lint_err::<NoSparseArray>("const a = [,,];", 10);
}

#[test]
fn code_is_stable() {
    let rule = <NoSparseArray as LintRule>::new();
    assert_eq!(rule.code(), "no-sparse-array");
}

#[test]
fn two_sparse_literals_in_source_order() {
    let diagnostics = lint::<NoSparseArray>("const a = [1,,3]; const b = [4,,6];");
    assert_eq!(diagnostics.len(), 2);
    assert_eq!(diagnostics[0].span.lo, 10);
    assert_eq!(diagnostics[1].span.lo, 28);
}

#[test]
fn nested_sparse_literals_parent_before_child() {
    // The outer literal has an elided slot of its own; the inner one too.
    // Pre-order: the outer literal's span comes first.
    let diagnostics = lint::<NoSparseArray>("const c = [[1,,2],,];");
    assert_eq!(diagnostics.len(), 2);
    assert_eq!(diagnostics[0].span.lo, 10);
    assert_eq!(diagnostics[1].span.lo, 11);
}

#[test]
fn nested_sparse_literal_inside_clean_outer() {
    let diagnostics = lint::<NoSparseArray>("const c = [[1,,2], 3];");
    assert_eq!(diagnostics.len(), 1);
    assert_eq!(diagnostics[0].span.lo, 11);
}

#[test]
fn two_runs_give_identical_collections() {
    let source = "const a = [1,,3]; const b = [[4,,6],,];";
    let first = lint::<NoSparseArray>(source);
    let second = lint::<NoSparseArray>(source);
    assert_eq!(first.len(), second.len());
    for (d1, d2) in first.iter().zip(second.iter()) {
        assert_eq!(d1.code, d2.code);
        assert_eq!(d1.message, d2.message);
        assert_eq!(d1.span, d2.span);
    }
    assert_eq!(first.len(), 3);
}

#[test]
fn tree_without_arrays_leaves_sink_unchanged() {
    assert_lint_ok::<NoSparseArray>("const x = 1 + 2;");

    // A sink that already holds a finding keeps it, and nothing is added.
    let tree = convert_module(&parse_module("const x = f(y); g();"));
    let mut context = Context::new();
    context.add_diagnostic(Span { lo: 3, hi: 7 }, "other-check", "something else");
    let rule = NoSparseArray;
    rule.lint_module(&mut context, &tree);
    let diagnostics = context.drain();
    assert_eq!(diagnostics.len(), 1);
    assert_eq!(diagnostics[0].code, "other-check");
    assert_eq!(diagnostics[0].message, "something else");
    assert_eq!(diagnostics[0].span, Span { lo: 3, hi: 7 });
}

#[test]
fn walk_dispatches_over_hand_built_tree() {
    // module
    //   other
    //     array literal with an elision        <- flagged
    //   array literal with all slots present   <- clean
    let sparse = Node::ArrayLit {
        span: Span { lo: 4, hi: 9 },
        elems: vec![
            None,
            Some(Node::Other {
                span: Span { lo: 6, hi: 7 },
                children: Vec::new(),
            }),
        ],
    };
    let clean = Node::ArrayLit {
        span: Span { lo: 12, hi: 15 },
        elems: vec![Some(Node::Other {
            span: Span { lo: 13, hi: 14 },
            children: Vec::new(),
        })],
    };
    let tree = Node::Module {
        span: Span { lo: 0, hi: 16 },
        body: vec![
            Node::Other {
                span: Span { lo: 2, hi: 10 },
                children: vec![sparse],
            },
            clean,
        ],
    };
    let visitor = NoSparseArrayVisitor::new();
    let mut context = Context::new();
    walk(&visitor, &mut context, &tree);
    assert_eq!(context.len(), 1);
    let diagnostics = context.drain();
    assert_eq!(diagnostics[0].span, Span { lo: 4, hi: 9 });
    assert_eq!(diagnostics[0].code, "no-sparse-array");
}

#[test]
fn sink_keeps_append_order() {
    let mut context = Context::new();
    assert_eq!(context.len(), 0);
    context.add_diagnostic(Span { lo: 0, hi: 1 }, "first-check", "first finding");
    context.add_diagnostic(Span { lo: 2, hi: 3 }, "second-check", "second finding");
    assert_eq!(context.len(), 2);
    let diagnostics = context.drain();
    assert_eq!(diagnostics.len(), 2);
    assert_eq!(diagnostics[0].code, "first-check");
    assert_eq!(diagnostics[0].message, "first finding");
    assert_eq!(diagnostics[0].span, Span { lo: 0, hi: 1 });
    assert_eq!(diagnostics[1].code, "second-check");
    assert_eq!(diagnostics[1].span, Span { lo: 2, hi: 3 });
}
