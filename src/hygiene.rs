//! Erasing the hygiene marks of a syntax tree.

use swc_common::SyntaxContext;
use swc_ecma_ast::Module;
use swc_ecma_visit::{VisitMut, VisitMutWith};
use vstd::prelude::*;

verus! {

#[verifier::external_type_specification]
#[verifier::external_body]
pub struct ExSyntaxContext(SyntaxContext);

#[verifier::external_type_specification]
#[verifier::external_body]
pub struct ExModule(Module);

/// The hygiene mark with number `id`; number 0 is the empty mark.
pub uninterp spec fn context_numbered(id: u32) -> SyntaxContext;

/// The module `m` with every hygiene mark in it set to the empty mark.
pub uninterp spec fn without_hygiene(m: Module) -> Module;

/// Relies on `SyntaxContext::empty`: the mark that no expansion introduced,
/// number 0.
#[verifier::external_body]
fn empty_context() -> (r: SyntaxContext)
    ensures
        r == context_numbered(0),
{
    SyntaxContext::empty()
}

/// A visitor that sets every hygiene mark it reaches to the empty mark and
/// changes nothing else.
pub struct HygieneRemover;

impl VisitMut for HygieneRemover {
    fn visit_mut_syntax_context(&mut self, node: &mut SyntaxContext)
        ensures
            *final(node) == context_numbered(0),
    {
        *node = empty_context();
    }
}

/// Relies on `swc_ecma_visit`'s generated `visit_mut_with`: a walk over the
/// whole module, depth first, that hands each hygiene mark to the visitor.
#[verifier::external_body]
fn walk_module(m: &mut Module, v: &mut HygieneRemover)
    ensures
        *final(m) == without_hygiene(*old(m)),
{
    m.visit_mut_with(v)
}

/// Sets every hygiene mark in `m` to the empty mark, in one walk over the
/// tree, and leaves the rest of the tree as it was.
pub fn remove_hygiene(m: &mut Module)
    ensures
        *final(m) == without_hygiene(*old(m)),
{
    let mut remover = HygieneRemover;
    walk_module(m, &mut remover);
}

} // verus!
