//! Universe levels and their instantiation.
//!
//! A level is an expression over zero, successor, variables, maximum and
//! impredicative maximum. `inst_bulk_reduce` substitutes every variable
//! according to a level substitution and normalizes bottom-up; with a complete
//! substitution of concrete levels the result is concrete, which is what the
//! sort values produced by evaluation rely on.

use crate::list::{List, lseq};
use std::rc::Rc;
use vstd::prelude::*;

verus! {

/// A universe level expression.
#[derive(Clone, Debug, PartialEq)]
pub enum Univ {
    /// The bottom level.
    Zero,
    /// The successor of a level.
    Succ(Rc<Univ>),
    /// A level-parameter variable, by position.
    Var(usize),
    /// The larger of two levels.
    Max(Rc<Univ>, Rc<Univ>),
    /// Impredicative maximum: zero when the second level is zero, otherwise
    /// the maximum.
    IMax(Rc<Univ>, Rc<Univ>),
}

/// Whether a level is built from zero and successor alone.
pub open spec fn univ_concrete(u: Univ) -> bool
    decreases u,
{
    match u {
        Univ::Zero => true,
        Univ::Succ(a) => univ_concrete(*a),
        _ => false,
    }
}

/// Whether every variable of the level lies below `n`.
pub open spec fn univ_vars_below(u: Univ, n: nat) -> bool
    decreases u,
{
    match u {
        Univ::Zero => true,
        Univ::Succ(a) => univ_vars_below(*a, n),
        Univ::Var(i) => i < n,
        Univ::Max(a, b) => univ_vars_below(*a, n) && univ_vars_below(*b, n),
        Univ::IMax(a, b) => univ_vars_below(*a, n) && univ_vars_below(*b, n),
    }
}

/// The larger of two concrete levels, kept in concrete form.
pub open spec fn max_concrete_s(x: Univ, y: Univ) -> Univ
    decreases x,
{
    match x {
        Univ::Zero => y,
        Univ::Succ(a) => match y {
            Univ::Zero => x,
            Univ::Succ(b) => Univ::Succ(Rc::new(max_concrete_s(*a, *b))),
            _ => y,
        },
        _ => y,
    }
}

/// The reduced maximum: resolved when both sides are concrete, kept symbolic
/// otherwise.
pub open spec fn reduce_max_s(x: Univ, y: Univ) -> Univ {
    if univ_concrete(x) && univ_concrete(y) {
        max_concrete_s(x, y)
    } else {
        Univ::Max(Rc::new(x), Rc::new(y))
    }
}

/// The reduced impredicative maximum: zero when the second side is zero, a
/// maximum when it is a successor, symbolic otherwise.
pub open spec fn reduce_imax_s(x: Univ, y: Univ) -> Univ {
    match y {
        Univ::Zero => Univ::Zero,
        Univ::Succ(_) => reduce_max_s(x, y),
        _ => Univ::IMax(Rc::new(x), Rc::new(y)),
    }
}

/// Substitution of level variables followed by bottom-up normalization.
/// A variable beyond the substitution stays symbolic; such a result signals an
/// incomplete substitution handed in by the caller.
pub open spec fn inst_univ_s(u: Univ, subst: Seq<Univ>) -> Univ
    decreases u,
{
    match u {
        Univ::Zero => Univ::Zero,
        Univ::Succ(a) => Univ::Succ(Rc::new(inst_univ_s(*a, subst))),
        Univ::Var(i) => if i < subst.len() {
            subst[i as int]
        } else {
            Univ::Var(i)
        },
        Univ::Max(a, b) => reduce_max_s(inst_univ_s(*a, subst), inst_univ_s(*b, subst)),
        Univ::IMax(a, b) => reduce_imax_s(inst_univ_s(*a, subst), inst_univ_s(*b, subst)),
    }
}

/// Instantiation of a whole list of levels against one substitution.
pub open spec fn inst_univs_s(us: List<Univ>, subst: Seq<Univ>) -> List<Univ>
    decreases us,
{
    match us {
        List::Nil => List::Nil,
        List::Cons(u, t) => List::Cons(inst_univ_s(u, subst), Rc::new(inst_univs_s(*t, subst))),
    }
}

/// A copy of a level; children are shared.
pub fn clone_univ(u: &Univ) -> (r: Univ)
    ensures
        r == *u,
{
    match u {
        Univ::Zero => Univ::Zero,
        Univ::Succ(a) => Univ::Succ(crate::rc_clone(a)),
        Univ::Var(i) => Univ::Var(*i),
        Univ::Max(a, b) => Univ::Max(crate::rc_clone(a), crate::rc_clone(b)),
        Univ::IMax(a, b) => Univ::IMax(crate::rc_clone(a), crate::rc_clone(b)),
    }
}

/// A copy of a level list: one fresh head node whose tail is shared.
pub fn clone_univ_list(l: &List<Univ>) -> (r: List<Univ>)
    ensures
        r == *l,
{
    match l {
        List::Nil => List::Nil,
        List::Cons(u, t) => List::Cons(clone_univ(u), crate::rc_clone(t)),
    }
}

/// The level at position `i` of a level list, copied out.
pub fn univ_at(l: &List<Univ>, i: usize) -> (r: Option<Univ>)
    ensures
        match r {
            Some(x) => i < lseq(*l).len() && x == lseq(*l)[i as int],
            None => i >= lseq(*l).len(),
        },
    decreases *l,
{
    match l {
        List::Nil => None,
        List::Cons(x, t) => {
            if i == 0 {
                Some(clone_univ(x))
            } else {
                univ_at(&**t, i - 1)
            }
        },
    }
}

/// Whether a level is built from zero and successor alone.
pub fn is_concrete(u: &Univ) -> (r: bool)
    ensures
        r == univ_concrete(*u),
    decreases *u,
{
    match u {
        Univ::Zero => true,
        Univ::Succ(a) => is_concrete(&**a),
        _ => false,
    }
}

/// The larger of two concrete levels.
fn max_concrete(x: &Univ, y: &Univ) -> (r: Univ)
    ensures
        r == max_concrete_s(*x, *y),
    decreases *x,
{
    match x {
        Univ::Zero => clone_univ(y),
        Univ::Succ(a) => match y {
            Univ::Zero => clone_univ(x),
            Univ::Succ(b) => Univ::Succ(Rc::new(max_concrete(&**a, &**b))),
            _ => clone_univ(y),
        },
        _ => clone_univ(y),
    }
}

/// The reduced maximum of two already-reduced levels.
fn reduce_max(x: Univ, y: Univ) -> (r: Univ)
    ensures
        r == reduce_max_s(x, y),
{
    if is_concrete(&x) && is_concrete(&y) {
        max_concrete(&x, &y)
    } else {
        Univ::Max(Rc::new(x), Rc::new(y))
    }
}

/// The reduced impredicative maximum of two already-reduced levels.
fn reduce_imax(x: Univ, y: Univ) -> (r: Univ)
    ensures
        r == reduce_imax_s(x, y),
{
    match &y {
        Univ::Zero => Univ::Zero,
        Univ::Succ(_) => reduce_max(x, y),
        _ => Univ::IMax(Rc::new(x), Rc::new(y)),
    }
}

/// Substitutes every level variable per `subst` and fully normalizes the
/// result. Never fails: a variable beyond the substitution is kept symbolic,
/// which only arises when the caller broke its contract of handing in a
/// complete substitution.
pub fn inst_bulk_reduce(u: &Univ, subst: &List<Univ>) -> (r: Univ)
    ensures
        r == inst_univ_s(*u, lseq(*subst)),
    decreases *u,
{
    match u {
        Univ::Zero => Univ::Zero,
        Univ::Succ(a) => Univ::Succ(Rc::new(inst_bulk_reduce(&**a, subst))),
        Univ::Var(i) => match univ_at(subst, *i) {
            Some(l) => l,
            None => Univ::Var(*i),
        },
        Univ::Max(a, b) => reduce_max(
            inst_bulk_reduce(&**a, subst),
            inst_bulk_reduce(&**b, subst),
        ),
        Univ::IMax(a, b) => reduce_imax(
            inst_bulk_reduce(&**a, subst),
            inst_bulk_reduce(&**b, subst),
        ),
    }
}

/// Instantiation of a whole list of levels against one substitution.
pub fn inst_univ_list(us: &List<Univ>, subst: &List<Univ>) -> (r: List<Univ>)
    ensures
        r == inst_univs_s(*us, lseq(*subst)),
    decreases *us,
{
    match us {
        List::Nil => List::Nil,
        List::Cons(u, t) => List::Cons(
            inst_bulk_reduce(u, subst),
            Rc::new(inst_univ_list(&**t, subst)),
        ),
    }
}

/// A concrete level is unchanged by instantiation, whatever the
/// substitution: it has no variables to substitute and is already reduced.
pub proof fn lemma_inst_concrete_identity(u: &Univ, subst: Seq<Univ>)
    requires
        univ_concrete(*u),
    ensures
        inst_univ_s(*u, subst) == *u,
    decreases *u,
{
    match u {
        Univ::Succ(a) => lemma_inst_concrete_identity(&**a, subst),
        _ => {},
    }
}

/// The maximum of two concrete levels is concrete.
proof fn lemma_max_concrete(x: &Univ, y: &Univ)
    requires
        univ_concrete(*x),
        univ_concrete(*y),
    ensures
        univ_concrete(max_concrete_s(*x, *y)),
    decreases *x,
{
    match x {
        Univ::Succ(a) => match y {
            Univ::Succ(b) => lemma_max_concrete(&**a, &**b),
            _ => {},
        },
        _ => {},
    }
}

/// The maximum of two concrete levels is concrete, stated for every pair.
proof fn lemma_max_concrete_forall()
    ensures
        forall|x: Univ, y: Univ|
            univ_concrete(x) && univ_concrete(y) ==> univ_concrete(#[trigger] max_concrete_s(x, y)),
{
    assert forall|x: Univ, y: Univ|
        univ_concrete(x) && univ_concrete(y) implies univ_concrete(
        #[trigger] max_concrete_s(x, y),
    ) by {
        lemma_max_concrete(&x, &y);
    }
}

/// Instantiating a level whose variables a substitution of concrete levels
/// covers yields a concrete level: every sort a complete evaluation
/// environment produces is variable-free.
pub proof fn lemma_inst_concrete(u: &Univ, subst: Seq<Univ>)
    requires
        univ_vars_below(*u, subst.len()),
        forall|i: int| 0 <= i < subst.len() ==> univ_concrete(#[trigger] subst[i]),
    ensures
        univ_concrete(inst_univ_s(*u, subst)),
    decreases *u,
{
    match u {
        Univ::Zero => {},
        Univ::Succ(a) => lemma_inst_concrete(&**a, subst),
        Univ::Var(_) => {},
        Univ::Max(a, b) => {
            lemma_inst_concrete(&**a, subst);
            lemma_inst_concrete(&**b, subst);
            lemma_max_concrete_forall();
        },
        Univ::IMax(a, b) => {
            lemma_inst_concrete(&**a, subst);
            lemma_inst_concrete(&**b, subst);
            lemma_max_concrete_forall();
        },
    }
}

} // verus!
