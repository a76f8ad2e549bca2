use swc_bundler_util::hygiene::{remove_hygiene, HygieneRemover};
use swc_ecma_visit::VisitMut;
use swc_common::{SyntaxContext, DUMMY_SP};
use swc_ecma_ast::{Expr, ExprStmt, Ident, Module, ModuleItem, Stmt};

fn ident_stmt(name: &str, ctxt: u32) -> ModuleItem {
    ModuleItem::Stmt(Stmt::Expr(ExprStmt {
        span: DUMMY_SP,
        expr: Box::new(Expr::Ident(Ident::new(
            name.into(),
            DUMMY_SP,
            SyntaxContext::from_u32(ctxt),
        ))),
    }))
}

fn contexts(m: &Module) -> Vec<(String, u32)> {
    let mut out = Vec::new();
    for item in &m.body {
        if let ModuleItem::Stmt(Stmt::Expr(s)) = item {
            if let Expr::Ident(id) = &*s.expr {
                out.push((id.sym.to_string(), id.ctxt.as_u32()));
            }
        }
    }
    out
}

fn sample() -> Module {
    Module {
        span: DUMMY_SP,
        body: vec![ident_stmt("a", 3), ident_stmt("a", 7), ident_stmt("b", 0)],
        shebang: None,
    }
}

#[test]
fn hygiene_marks_become_empty() {
    let mut m = sample();
    remove_hygiene(&mut m);
    assert_eq!(
        contexts(&m),
        vec![
            (String::from("a"), 0),
            (String::from("a"), 0),
            (String::from("b"), 0)
        ]
    );
    assert_eq!(m.body[0], m.body[1]);
}

#[test]
fn hygiene_removal_is_idempotent() {
    let mut once = sample();
    remove_hygiene(&mut once);
    let mut twice = once.clone();
    remove_hygiene(&mut twice);
    assert_eq!(once, twice);
}

#[test]
fn hygiene_removal_on_empty_module() {
    let mut m = Module {
        span: DUMMY_SP,
        body: Vec::new(),
        shebang: None,
    };
    remove_hygiene(&mut m);
    assert!(m.body.is_empty());
}

#[test]
fn visitor_empties_one_mark() {
    let mut c = SyntaxContext::from_u32(4);
    HygieneRemover.visit_mut_syntax_context(&mut c);
    assert_eq!(c, SyntaxContext::empty());
    assert_eq!(c.as_u32(), 0);
}
