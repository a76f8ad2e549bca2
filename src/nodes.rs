//! Placeholders of the syntax tree's node types.
//!
//! The node types come from `swc_ecma_ast` and are opaque to proofs: each
//! placeholder is built by the constructors of that crate, and proofs know it
//! by the name of what those constructors return.

use crate::placeholder::{MapWithMut, UniquePlaceholder};
use swc_common::DUMMY_SP;
use swc_ecma_ast::{
    AssignPatProp, AssignTarget, BindingIdent, EmptyStmt, Expr, Ident, Invalid, ModuleItem,
    ObjectPatProp, Pat, SimpleAssignTarget, Stmt,
};
use vstd::prelude::*;

verus! {

#[verifier::external_type_specification]
#[verifier::external_body]
pub struct ExModuleItem(ModuleItem);

#[verifier::external_type_specification]
#[verifier::external_body]
pub struct ExStmt(Stmt);

#[verifier::external_type_specification]
#[verifier::external_body]
pub struct ExExpr(Expr);

#[verifier::external_type_specification]
#[verifier::external_body]
pub struct ExPat(Pat);

#[verifier::external_type_specification]
#[verifier::external_body]
pub struct ExIdent(Ident);

#[verifier::external_type_specification]
#[verifier::external_body]
pub struct ExObjectPatProp(ObjectPatProp);

#[verifier::external_type_specification]
#[verifier::external_body]
pub struct ExAssignTarget(AssignTarget);

/// The empty statement over the source range `lo..hi`.
pub uninterp spec fn empty_stmt_at(lo: u32, hi: u32) -> Stmt;

/// The module item that holds the statement `s`.
pub uninterp spec fn stmt_item_of(s: Stmt) -> ModuleItem;

/// The invalid expression over the source range `lo..hi`.
pub uninterp spec fn invalid_expr_at(lo: u32, hi: u32) -> Expr;

/// The invalid pattern over the source range `lo..hi`.
pub uninterp spec fn invalid_pat_at(lo: u32, hi: u32) -> Pat;

/// The identifier with name `sym`, without a source position or a hygiene
/// mark.
pub uninterp spec fn ident_named(sym: Seq<char>) -> Ident;

/// The shorthand property of an object pattern that binds `key`, with no
/// default value.
pub uninterp spec fn shorthand_of(key: Ident) -> ObjectPatProp;

/// The assignment target that binds `id`.
pub uninterp spec fn ident_target_of(id: Ident) -> AssignTarget;

/// Relies on swc_ecma_ast's constructors: an empty statement without a
/// source position.
#[verifier::external_body]
fn empty_stmt() -> (r: Stmt)
    ensures
        r == empty_stmt_at(0, 0),
{
    Stmt::Empty(EmptyStmt { span: DUMMY_SP })
}

/// Relies on swc_ecma_ast's constructors: a module item that holds `s`.
#[verifier::external_body]
fn stmt_item(s: Stmt) -> (r: ModuleItem)
    ensures
        r == stmt_item_of(s),
{
    ModuleItem::Stmt(s)
}

/// Relies on swc_ecma_ast's constructors: the invalid expression without a
/// source position.
#[verifier::external_body]
fn invalid_expr() -> (r: Expr)
    ensures
        r == invalid_expr_at(0, 0),
{
    Expr::Invalid(Invalid { span: DUMMY_SP })
}

/// Relies on swc_ecma_ast's constructors: the invalid pattern without a
/// source position.
#[verifier::external_body]
fn invalid_pat() -> (r: Pat)
    ensures
        r == invalid_pat_at(0, 0),
{
    Pat::Invalid(Invalid { span: DUMMY_SP })
}

/// Relies on swc_ecma_ast's `Ident::new_no_ctxt`: the empty name, without a
/// source position or a hygiene mark.
#[verifier::external_body]
fn empty_ident() -> (r: Ident)
    ensures
        r == ident_named(Seq::empty()),
{
    Ident::new_no_ctxt("".into(), DUMMY_SP)
}

/// Relies on swc_ecma_ast's constructors: a shorthand property of an object
/// pattern that binds `key`, with no default value.
#[verifier::external_body]
fn shorthand_prop(key: Ident) -> (r: ObjectPatProp)
    ensures
        r == shorthand_of(key),
{
    ObjectPatProp::Assign(AssignPatProp {
        span: DUMMY_SP,
        key: BindingIdent::from(key),
        value: None,
    })
}

/// Relies on swc_ecma_ast's constructors: the assignment target that binds
/// `id`.
#[verifier::external_body]
fn ident_target(id: Ident) -> (r: AssignTarget)
    ensures
        r == ident_target_of(id),
{
    AssignTarget::Simple(SimpleAssignTarget::Ident(BindingIdent::from(id)))
}

impl MapWithMut for ModuleItem {
    /// The placeholder is the module item holding the empty statement without a source position.
    open spec fn is_placeholder(v: Self) -> bool {
        v == stmt_item_of(empty_stmt_at(0, 0))
    }

    fn dummy() -> (r: Self) {
        stmt_item(empty_stmt())
    }
}

impl UniquePlaceholder for ModuleItem {
    proof fn lemma_placeholder_unique(a: Self, b: Self) {
    }
}

impl MapWithMut for Stmt {
    /// The placeholder is the empty statement without a source position.
    open spec fn is_placeholder(v: Self) -> bool {
        v == empty_stmt_at(0, 0)
    }

    fn dummy() -> (r: Self) {
        empty_stmt()
    }
}

impl UniquePlaceholder for Stmt {
    proof fn lemma_placeholder_unique(a: Self, b: Self) {
    }
}

impl MapWithMut for Expr {
    /// The placeholder is the invalid expression without a source position.
    open spec fn is_placeholder(v: Self) -> bool {
        v == invalid_expr_at(0, 0)
    }

    fn dummy() -> (r: Self) {
        invalid_expr()
    }
}

impl UniquePlaceholder for Expr {
    proof fn lemma_placeholder_unique(a: Self, b: Self) {
    }
}

impl MapWithMut for Pat {
    /// The placeholder is the invalid pattern without a source position.
    open spec fn is_placeholder(v: Self) -> bool {
        v == invalid_pat_at(0, 0)
    }

    fn dummy() -> (r: Self) {
        invalid_pat()
    }
}

impl UniquePlaceholder for Pat {
    proof fn lemma_placeholder_unique(a: Self, b: Self) {
    }
}

impl MapWithMut for Ident {
    /// The placeholder is the identifier with the empty name.
    open spec fn is_placeholder(v: Self) -> bool {
        v == ident_named(Seq::empty())
    }

    fn dummy() -> (r: Self) {
        empty_ident()
    }
}

impl UniquePlaceholder for Ident {
    proof fn lemma_placeholder_unique(a: Self, b: Self) {
    }
}

impl MapWithMut for ObjectPatProp {
    /// The placeholder is the shorthand property that binds the empty name.
    open spec fn is_placeholder(v: Self) -> bool {
        v == shorthand_of(ident_named(Seq::empty()))
    }

    fn dummy() -> (r: Self) {
        shorthand_prop(empty_ident())
    }
}

impl UniquePlaceholder for ObjectPatProp {
    proof fn lemma_placeholder_unique(a: Self, b: Self) {
    }
}

impl MapWithMut for AssignTarget {
    /// The placeholder is the target that binds the empty name.
    open spec fn is_placeholder(v: Self) -> bool {
        v == ident_target_of(ident_named(Seq::empty()))
    }

    fn dummy() -> (r: Self) {
        ident_target(empty_ident())
    }
}

impl UniquePlaceholder for AssignTarget {
    proof fn lemma_placeholder_unique(a: Self, b: Self) {
    }
}

} // verus!
