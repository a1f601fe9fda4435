//! Rendering declarations back to text.
//!
//! The exact wording is display-only; what is specified — and proved — is the
//! lookup behavior: rendering succeeds exactly when every sub-term and
//! sub-constant the declaration references is present in the store, and a
//! missing entry is reported as a structured missing-dependency error, never
//! swallowed. Arms the surrounding tooling does not render yet (definitions,
//! recursors, quotients) yield empty text, and a constructor renders as its
//! name.

use crate::cid::ExprCid;
use crate::constant::Const;
use crate::environment::{Env, assoc};
use crate::expression::{BinderInfo, Expr, LitType, Literal};
use crate::list::List;
use crate::universe::Univ;
use crate::{KernelError, Violation};
use std::rc::Rc;
use vstd::prelude::*;

verus! {

/// Relies on `String::push_str`: appends the given slice's characters.
pub assume_specification[ std::string::String::push_str ](s: &mut std::string::String, other: &str)
    ensures
        final(s)@ == old(s)@ + other@,
;

/// Relies on `String::push`: appends the given character.
pub assume_specification[ std::string::String::push ](s: &mut std::string::String, c: char)
    ensures
        final(s)@ == old(s)@.push(c),
;

/// Whether every constructor's type is present in the store.
pub open spec fn ctors_present_s(l: List<(String, ExprCid)>, env: Env) -> bool
    decreases l,
{
    match l {
        List::Nil => true,
        List::Cons(p, t) => assoc(env.expr_cache@, p.1) is Some && ctors_present_s(*t, env),
    }
}

/// Whether rendering a declaration can find everything it dereferences: its
/// type, its constructors' types, its parent inductive — and, for a recursor,
/// that the parent is an inductive agreeing on parameter and index counts.
pub open spec fn pretty_ok(c: Const, env: Env) -> bool {
    match c {
        Const::Axiom { typ, .. } => assoc(env.expr_cache@, typ) is Some,
        Const::Theorem { typ, expr, .. } => assoc(env.expr_cache@, typ) is Some && assoc(
            env.expr_cache@,
            expr,
        ) is Some,
        Const::Opaque { typ, expr, .. } => assoc(env.expr_cache@, typ) is Some && assoc(
            env.expr_cache@,
            expr,
        ) is Some,
        Const::Definition { .. } => true,
        Const::Inductive { typ, ctors, .. } => assoc(env.expr_cache@, typ) is Some
            && ctors_present_s(ctors, env),
        Const::Constructor { typ, ind, .. } => assoc(env.expr_cache@, typ) is Some && assoc(
            env.const_cache@,
            ind,
        ) is Some,
        Const::Recursor { ind, params, indices, .. } => match assoc(env.const_cache@, ind) {
            Some(Const::Inductive { params: p2, indices: i2, .. }) => p2 == params && i2
                == indices,
            _ => false,
        },
        Const::Quotient { .. } => true,
    }
}

/// One decimal digit.
fn digit_text(d: u64) -> (r: char)
    requires
        d < 10,
{
    match d {
        0 => '0',
        1 => '1',
        2 => '2',
        3 => '3',
        4 => '4',
        5 => '5',
        6 => '6',
        7 => '7',
        8 => '8',
        _ => '9',
    }
}

/// The decimal text of a number.
fn dec_text(n: u64) -> (r: String)
    decreases n,
{
    if n < 10 {
        let mut s = String::new();
        s.push(digit_text(n));
        s
    } else {
        let mut s = dec_text(n / 10);
        s.push(digit_text(n % 10));
        s
    }
}

/// The text of a universe level.
fn univ_text(u: &Univ) -> (r: String)
    decreases *u,
{
    let mut s = String::new();
    match u {
        Univ::Zero => {
            s.push('0');
        },
        Univ::Succ(a) => {
            s.push_str("(succ ");
            s.push_str(univ_text(&**a).as_str());
            s.push(')');
        },
        Univ::Var(i) => {
            s.push_str("u#");
            s.push_str(dec_text(*i as u64).as_str());
        },
        Univ::Max(a, b) => {
            s.push_str("(max ");
            s.push_str(univ_text(&**a).as_str());
            s.push(' ');
            s.push_str(univ_text(&**b).as_str());
            s.push(')');
        },
        Univ::IMax(a, b) => {
            s.push_str("(imax ");
            s.push_str(univ_text(&**a).as_str());
            s.push(' ');
            s.push_str(univ_text(&**b).as_str());
            s.push(')');
        },
    }
    s
}

/// A binder's opening and closing brackets.
fn binder_brackets(b: &BinderInfo) -> (r: (&'static str, &'static str)) {
    match b {
        BinderInfo::Default => ("(", ")"),
        BinderInfo::Implicit => ("{", "}"),
        BinderInfo::StrictImplicit => ("{{", "}}"),
        BinderInfo::InstImplicit => ("[", "]"),
    }
}

/// The text of a constant reference: the first word of its anonymous digest,
/// or all four words when the indicator flag asks for full identifiers.
fn cid_text(c: &crate::cid::ConstCid, ind: bool) -> (r: String) {
    let mut s = String::new();
    s.push('#');
    s.push_str(dec_text(c.anon.0.w0).as_str());
    if ind {
        s.push('.');
        s.push_str(dec_text(c.anon.0.w1).as_str());
        s.push('.');
        s.push_str(dec_text(c.anon.0.w2).as_str());
        s.push('.');
        s.push_str(dec_text(c.anon.0.w3).as_str());
    }
    s
}

/// The text of a term; bound variables display as their de Bruijn index.
fn expr_text(e: &Expr, ind: bool) -> (r: String)
    decreases *e,
{
    let mut s = String::new();
    match e {
        Expr::Var(i) => {
            s.push('#');
            s.push_str(dec_text(*i as u64).as_str());
        },
        Expr::Sort(u) => {
            match &**u {
                Univ::Zero => s.push_str("Prop"),
                _ => {
                    s.push_str("Sort ");
                    s.push_str(univ_text(&**u).as_str());
                },
            }
        },
        Expr::Const(c, _us) => {
            s.push_str(cid_text(c, ind).as_str());
        },
        Expr::App(f, a) => {
            s.push('(');
            s.push_str(expr_text(&**f, ind).as_str());
            s.push(' ');
            s.push_str(expr_text(&**a, ind).as_str());
            s.push(')');
        },
        Expr::Lam(b, t, body) => {
            let (op, cl) = binder_brackets(b);
            s.push_str("\u{03bb} ");
            s.push_str(op);
            s.push_str(expr_text(&**t, ind).as_str());
            s.push_str(cl);
            s.push_str(" => ");
            s.push_str(expr_text(&**body, ind).as_str());
        },
        Expr::Pi(b, d, c) => {
            let (op, cl) = binder_brackets(b);
            s.push_str("\u{03a0} ");
            s.push_str(op);
            s.push_str(expr_text(&**d, ind).as_str());
            s.push_str(cl);
            s.push_str(" \u{2192} ");
            s.push_str(expr_text(&**c, ind).as_str());
        },
        Expr::Let(t, v, body) => {
            s.push_str("let : ");
            s.push_str(expr_text(&**t, ind).as_str());
            s.push_str(" := ");
            s.push_str(expr_text(&**v, ind).as_str());
            s.push_str("; ");
            s.push_str(expr_text(&**body, ind).as_str());
        },
        Expr::Lit(l) => match l {
            Literal::Nat(n) => {
                s.push_str(dec_text(*n).as_str());
            },
            Literal::Str(t) => {
                s.push('"');
                s.push_str(t.as_str());
                s.push('"');
            },
        },
        Expr::Lty(t) => match t {
            LitType::Nat => s.push_str("Nat"),
            LitType::Str => s.push_str("String"),
        },
        Expr::Fix(body) => {
            s.push_str("(fix ");
            s.push_str(expr_text(&**body, ind).as_str());
            s.push(')');
        },
        Expr::Proj(i, body) => {
            s.push_str("(proj ");
            s.push_str(dec_text(*i).as_str());
            s.push(' ');
            s.push_str(expr_text(&**body, ind).as_str());
            s.push(')');
        },
    }
    s
}

/// Level-parameter names joined by spaces.
fn lvls_text(l: &List<String>) -> (r: String)
    decreases *l,
{
    match l {
        List::Nil => String::new(),
        List::Cons(n, t) => {
            let mut s = String::new();
            s.push_str(n.as_str());
            match &**t {
                List::Nil => {},
                _ => {
                    s.push(' ');
                    s.push_str(lvls_text(&**t).as_str());
                },
            }
            s
        },
    }
}

/// Splits up to `n` leading function-type binders off a term.
fn split_binders(e: &Rc<Expr>, n: u64) -> (r: (Vec<(BinderInfo, Rc<Expr>)>, Rc<Expr>))
    decreases **e,
{
    if n > 0 {
        match &**e {
            Expr::Pi(b, d, c) => {
                let (mut bds, rest) = split_binders(c, n - 1);
                bds.insert(0, (*b, crate::rc_clone(d)));
                (bds, rest)
            },
            _ => (Vec::new(), crate::rc_clone(e)),
        }
    } else {
        (Vec::new(), crate::rc_clone(e))
    }
}

/// The rendered binder group of one split-off binder.
fn binder_text(b: &(BinderInfo, Rc<Expr>), ind: bool) -> (r: String) {
    let (op, cl) = binder_brackets(&b.0);
    let mut s = String::new();
    s.push_str(op);
    s.push_str(expr_text(&*b.1, ind).as_str());
    s.push_str(cl);
    s
}

/// The constructor lines of an inductive declaration, one per constructor;
/// fails on the first constructor whose type the store is missing.
fn ctors_text(env: &Env, ind: bool, l: &List<(String, ExprCid)>) -> (r: Result<String, KernelError>)
    ensures
        r is Ok <==> ctors_present_s(*l, *env),
    decreases *l,
{
    match l {
        List::Nil => Ok(String::new()),
        List::Cons(p, t) => match env.get_expr(&p.1) {
            None => Err(KernelError::MissingExpr(p.1)),
            Some(e) => {
                let mut s = String::new();
                s.push_str("| ");
                s.push_str(p.0.as_str());
                s.push_str(" : ");
                s.push_str(expr_text(&*e, ind).as_str());
                s.push_str(",\n");
                match ctors_text(env, ind, &**t) {
                    Ok(rest) => {
                        s.push_str(rest.as_str());
                        Ok(s)
                    },
                    Err(er) => Err(er),
                }
            },
        },
    }
}

impl Const {
    /// Renders the declaration, dereferencing every sub-term and sub-constant
    /// it mentions against the store: rendering succeeds exactly when all of
    /// them are present (and, for a recursor, when the parent inductive
    /// agrees on parameter and index counts), and a missing entry is a
    /// structured error naming the identifier. `ind` asks for full content
    /// identifiers in the rendered text. The wording itself is display-only
    /// and unspecified, except that the arms the surrounding tooling does not
    /// render yet yield empty text and a constructor renders as its name.
    pub fn pretty(self, ind: bool, env: &Env) -> (r: Result<String, KernelError>)
        ensures
            r is Ok <==> pretty_ok(self, *env),
            self matches Const::Definition { .. } ==> (r matches Ok(s) ==> s@
                == Seq::<char>::empty()),
            self matches Const::Recursor { .. } ==> (r matches Ok(s) ==> s@
                == Seq::<char>::empty()),
            self matches Const::Quotient { .. } ==> (r matches Ok(s) ==> s@
                == Seq::<char>::empty()),
            self matches Const::Constructor { name, .. } ==> (r matches Ok(s) ==> s@ == name@),
    {
        match &self {
            Const::Axiom { name, lvl, typ, safe } => match env.get_expr(typ) {
                None => Err(KernelError::MissingExpr(*typ)),
                Some(t) => {
                    let mut s = String::new();
                    s.push_str(if *safe { "safe" } else { "unsafe" });
                    s.push_str(" axiom ");
                    s.push_str(name.as_str());
                    s.push_str(" {");
                    s.push_str(lvls_text(lvl).as_str());
                    s.push_str("} : ");
                    s.push_str(expr_text(&*t, ind).as_str());
                    Ok(s)
                },
            },
            Const::Theorem { name, lvl, typ, expr } => match env.get_expr(typ) {
                None => Err(KernelError::MissingExpr(*typ)),
                Some(t) => match env.get_expr(expr) {
                    None => Err(KernelError::MissingExpr(*expr)),
                    Some(e) => {
                        let mut s = String::new();
                        s.push_str("theorem ");
                        s.push_str(name.as_str());
                        s.push_str(" {");
                        s.push_str(lvls_text(lvl).as_str());
                        s.push_str("} : ");
                        s.push_str(expr_text(&*t, ind).as_str());
                        s.push_str(" := ");
                        s.push_str(expr_text(&*e, ind).as_str());
                        Ok(s)
                    },
                },
            },
            Const::Opaque { name, lvl, typ, expr, safe } => match env.get_expr(typ) {
                None => Err(KernelError::MissingExpr(*typ)),
                Some(t) => match env.get_expr(expr) {
                    None => Err(KernelError::MissingExpr(*expr)),
                    Some(e) => {
                        let mut s = String::new();
                        s.push_str(if *safe { "safe" } else { "unsafe" });
                        s.push_str(" opaque ");
                        s.push_str(name.as_str());
                        s.push_str(" {");
                        s.push_str(lvls_text(lvl).as_str());
                        s.push_str("} : ");
                        s.push_str(expr_text(&*t, ind).as_str());
                        s.push_str(" := ");
                        s.push_str(expr_text(&*e, ind).as_str());
                        Ok(s)
                    },
                },
            },
            Const::Definition { .. } => Ok(String::new()),
            Const::Inductive { name, lvl, typ, params, indices, ctors, recr, safe, .. } => {
                match env.get_expr(typ) {
                    None => Err(KernelError::MissingExpr(*typ)),
                    Some(t) => match ctors_text(env, ind, ctors) {
                        Err(er) => Err(er),
                        Ok(cs) => {
                            // the type reads `params -> indices -> sort`; split
                            // the parameter and index binders off for display
                            let total: u64 = if *params <= u64::MAX - *indices {
                                *params + *indices
                            } else {
                                u64::MAX
                            };
                            let (bds, sort) = split_binders(&t, total);
                            let mut s = String::new();
                            s.push_str(if *safe { "safe" } else { "unsafe" });
                            s.push_str(if *recr { " recursive inductive " } else {
                                " inductive "
                            });
                            s.push_str(name.as_str());
                            s.push_str(" {");
                            s.push_str(lvls_text(lvl).as_str());
                            s.push_str("}");
                            let mut i: usize = 0;
                            while i < bds.len()
                                decreases bds@.len() - i,
                            {
                                s.push(' ');
                                s.push_str(binder_text(&bds[i], ind).as_str());
                                i = i + 1;
                            }
                            s.push_str(" : ");
                            s.push_str(expr_text(&*sort, ind).as_str());
                            s.push_str(" where\n");
                            s.push_str(cs.as_str());
                            Ok(s)
                        },
                    },
                }
            },
            Const::Constructor { name, typ, ind: parent, .. } => match env.get_expr(typ) {
                None => Err(KernelError::MissingExpr(*typ)),
                Some(_) => match env.get_const(parent) {
                    None => Err(KernelError::MissingConst(*parent)),
                    Some(_) => {
                        let mut s = String::new();
                        s.push_str(name.as_str());
                        assert(s@ =~= self->Constructor_name@);
                        Ok(s)
                    },
                },
            },
            Const::Recursor { ind: parent, params, indices, .. } => {
                match env.get_const(parent) {
                    None => Err(KernelError::MissingConst(*parent)),
                    Some(k) => match k {
                        Const::Inductive { params: p2, indices: i2, .. } => {
                            if *p2 == *params && *i2 == *indices {
                                Ok(String::new())
                            } else {
                                Err(KernelError::Internal(Violation::MalformedRecursion))
                            }
                        },
                        _ => Err(KernelError::Internal(Violation::MalformedRecursion)),
                    },
                }
            },
            Const::Quotient { .. } => Ok(String::new()),
        }
    }
}

} // verus!
