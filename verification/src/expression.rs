//! De Bruijn-indexed terms.
//!
//! Pure data: terms reference constants by identifier and carry the universe
//! levels the constant is instantiated with. Bound variables are positions
//! counted from the innermost binder; their validity is established by the
//! type checking that precedes evaluation and is re-checked dynamically here
//! so that the evaluator never panics.

use crate::cid::ConstCid;
use crate::list::List;
use crate::universe::Univ;
use std::rc::Rc;
use vstd::prelude::*;

verus! {

/// How a binder displays; irrelevant to reduction, carried for read-back.
#[derive(Clone, Copy, Debug, PartialEq, Eq, Structural)]
pub enum BinderInfo {
    Default,
    Implicit,
    StrictImplicit,
    InstImplicit,
}

/// The type of a literal.
#[derive(Clone, Copy, Debug, PartialEq, Eq, Structural)]
pub enum LitType {
    Nat,
    Str,
}

/// A literal value.
#[derive(Clone, Debug, PartialEq)]
pub enum Literal {
    Nat(u64),
    Str(Rc<String>),
}

/// A term, in de Bruijn form.
#[derive(Clone, Debug, PartialEq)]
pub enum Expr {
    /// A bound variable, counted from the innermost binder.
    Var(usize),
    /// A sort at the given universe level.
    Sort(Rc<Univ>),
    /// A reference to a stored constant with its level instantiation.
    Const(ConstCid, List<Univ>),
    /// Application.
    App(Rc<Expr>, Rc<Expr>),
    /// A lambda: binder tag, declared domain, body.
    Lam(BinderInfo, Rc<Expr>, Rc<Expr>),
    /// A dependent function type: binder tag, domain, codomain.
    Pi(BinderInfo, Rc<Expr>, Rc<Expr>),
    /// A local definition: declared type, bound term, body.
    Let(Rc<Expr>, Rc<Expr>, Rc<Expr>),
    /// A literal.
    Lit(Literal),
    /// The type of a literal.
    Lty(LitType),
    /// Self-referential binder for general recursion.
    Fix(Rc<Expr>),
    /// Projection of a field; reserved, evaluation reports it unimplemented.
    Proj(u64, Rc<Expr>),
}

/// A copy of a literal; a string literal shares its characters.
pub fn clone_literal(l: &Literal) -> (r: Literal)
    ensures
        r == *l,
{
    match l {
        Literal::Nat(n) => Literal::Nat(*n),
        Literal::Str(s) => Literal::Str(crate::rc_clone(s)),
    }
}

/// Structural height of a term, used as a termination measure by the
/// evaluator: every proper subterm has a smaller height.
pub open spec fn expr_height(e: Expr) -> nat
    decreases e,
{
    match e {
        Expr::Var(_) => 1,
        Expr::Sort(_) => 1,
        Expr::Const(_, _) => 1,
        Expr::App(f, a) => 1 + vstd::math::max(
            expr_height(*f) as int,
            expr_height(*a) as int,
        ) as nat,
        Expr::Lam(_, t, b) => 1 + vstd::math::max(
            expr_height(*t) as int,
            expr_height(*b) as int,
        ) as nat,
        Expr::Pi(_, d, c) => 1 + vstd::math::max(
            expr_height(*d) as int,
            expr_height(*c) as int,
        ) as nat,
        Expr::Let(t, v, b) => 1 + vstd::math::max(
            expr_height(*t) as int,
            vstd::math::max(expr_height(*v) as int, expr_height(*b) as int),
        ) as nat,
        Expr::Lit(_) => 1,
        Expr::Lty(_) => 1,
        Expr::Fix(b) => 1 + expr_height(*b),
        Expr::Proj(_, b) => 1 + expr_height(*b),
    }
}

} // verus!
