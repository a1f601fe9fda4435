//! Read-back (quoting): from values to terms.
//!
//! Converts a weak-head value back into a de Bruijn term, the step needed to
//! compare two values for definitional equality or to re-normalize under a
//! binder. A neutral application folds its spine, oldest argument first, into
//! nested applications over the quoted head. A closure or function-type value
//! is read back by shifting every free-variable reference already present in
//! its environment up by one, injecting a fresh synthetic free variable as the
//! innermost bound thunk, evaluating the body in that extended environment and
//! quoting the result. The declared binder type is lost on evaluation, so a
//! closure is re-annotated with the bottom sort on both sides of any
//! comparison.

use crate::environment::Env;
use crate::evaluation::{EvalEnv, Neutral, Thunk, Value, eval, eval_s, force, force_s};
use crate::expression::Expr;
use crate::list::{List, lseq};
use crate::universe::{Univ, clone_univ, clone_univ_list};
use crate::{KernelError, Violation};
use std::rc::Rc;
use vstd::prelude::*;

verus! {

/// The term of a neutral head: a free variable index or a constant reference.
pub open spec fn read_back_neutral_s(n: Neutral) -> Expr {
    match n {
        Neutral::FVar(i) => Expr::Var(i),
        Neutral::Const(c, us) => Expr::Const(c, us),
    }
}

/// The term of a neutral head.
pub fn read_back_neutral(n: &Neutral) -> (r: Expr)
    ensures
        r == read_back_neutral_s(*n),
{
    match n {
        Neutral::FVar(i) => Expr::Var(*i),
        Neutral::Const(c, us) => Expr::Const(*c, clone_univ_list(us)),
    }
}

/// Shifting one environment entry: a thunk resolved to a free-variable
/// application gets a fresh thunk with the variable index raised by one —
/// a new binder is being wrapped around it — and every other thunk is kept.
pub open spec fn shift_list_s(th: Seq<Thunk>, l: List<usize>) -> (Seq<Thunk>, Result<
    List<usize>,
    KernelError,
>)
    decreases l,
{
    match l {
        List::Nil => (th, Ok(List::Nil)),
        List::Cons(t, rest) => {
            let (th1, h) = if t < th.len() {
                match th[t as int] {
                    Thunk::Res(Value::App(Neutral::FVar(i), args)) => {
                        if i == usize::MAX {
                            (th, Err(KernelError::Internal(Violation::SizeOverflow)))
                        } else {
                            (
                                th.push(
                                    Thunk::Res(
                                        Value::App(Neutral::FVar((i + 1) as usize), args),
                                    ),
                                ),
                                Ok(th.len() as usize),
                            )
                        }
                    },
                    _ => (th, Ok(t)),
                }
            } else {
                (th, Ok(t))
            };
            match h {
                Err(e) => (th1, Err(e)),
                Ok(hh) => {
                    let r = shift_list_s(th1, *rest);
                    match r.1 {
                        Err(e) => (r.0, Err(e)),
                        Ok(tl) => (r.0, Ok(List::Cons(hh, Rc::new(tl)))),
                    }
                },
            }
        },
    }
}

/// The environment with every free-variable reference shifted up by one.
pub open spec fn shift_env_s(th: Seq<Thunk>, en: EvalEnv) -> (Seq<Thunk>, Result<
    EvalEnv,
    KernelError,
>) {
    let r = shift_list_s(th, en.exprs);
    match r.1 {
        Err(e) => (r.0, Err(e)),
        Ok(l) => (r.0, Ok(EvalEnv { exprs: l, univs: en.univs })),
    }
}

/// Shifts the entries of one thunk-index list; see `shift_list_s`.
fn shift_list(th: &mut Vec<Thunk>, l: &List<usize>) -> (r: Result<List<usize>, KernelError>)
    ensures
        ({
            let (t2, r2) = shift_list_s(old(th)@, *l);
            final(th)@ == t2 && r == r2
        }),
    decreases *l,
{
    match l {
        List::Nil => Ok(List::Nil),
        List::Cons(t, rest) => {
            let hh: usize = if *t < th.len() {
                let fresh = match &th[*t] {
                    Thunk::Res(Value::App(Neutral::FVar(i), args)) => {
                        if *i == usize::MAX {
                            return Err(KernelError::Internal(Violation::SizeOverflow));
                        }
                        Some(Thunk::Res(Value::App(Neutral::FVar(*i + 1), crate::list::clone_list(
                            args,
                        ))))
                    },
                    _ => None,
                };
                match fresh {
                    Some(nt) => {
                        let idx = th.len();
                        th.push(nt);
                        idx
                    },
                    None => *t,
                }
            } else {
                *t
            };
            match shift_list(th, &**rest) {
                Err(e) => Err(e),
                Ok(tl) => Ok(List::Cons(hh, Rc::new(tl))),
            }
        },
    }
}

/// The environment with every free-variable reference shifted up by one; see
/// `shift_env_s`.
pub fn shift_env(th: &mut Vec<Thunk>, en: &EvalEnv) -> (r: Result<EvalEnv, KernelError>)
    ensures
        ({
            let (t2, r2) = shift_env_s(old(th)@, *en);
            final(th)@ == t2 && r == r2
        }),
{
    match shift_list(th, &en.exprs) {
        Err(e) => Err(e),
        Ok(l) => Ok(EvalEnv { exprs: l, univs: clone_univ_list(&en.univs) }),
    }
}

/// Quoting a spine: the head's term applied to the quoted forced arguments,
/// oldest argument innermost.
pub open spec fn rb_spine_s(env: Env, th: Seq<Thunk>, neu: Neutral, args: List<usize>, fuel: nat)
    -> (Seq<Thunk>, Result<Expr, KernelError>)
    decreases fuel, 0int, lseq(args).len(),
{
    match args {
        List::Nil => (th, Ok(read_back_neutral_s(neu))),
        List::Cons(a, rest) => {
            let r1 = rb_spine_s(env, th, neu, *rest, fuel);
            match r1.1 {
                Err(e) => (r1.0, Err(e)),
                Ok(f_expr) => {
                    let r2 = force_s(env, r1.0, a as int, fuel);
                    match r2.1 {
                        Err(e) => (r2.0, Err(e)),
                        Ok(v) => {
                            if fuel == 0 {
                                (r2.0, Err(KernelError::OutOfFuel))
                            } else {
                                let r3 = read_back_s(env, r2.0, v, (fuel - 1) as nat);
                                match r3.1 {
                                    Err(e) => (r3.0, Err(e)),
                                    Ok(a_expr) => (
                                        r3.0,
                                        Ok(Expr::App(Rc::new(f_expr), Rc::new(a_expr))),
                                    ),
                                }
                            }
                        },
                    }
                },
            }
        },
    }
}

/// Quoting a value back into a term; the mathematical meaning the executable
/// `read_back` is proved to compute.
pub open spec fn read_back_s(env: Env, th: Seq<Thunk>, v: Value, fuel: nat) -> (Seq<Thunk>, Result<
    Expr,
    KernelError,
>)
    decreases fuel, 1int, 0int,
{
    match v {
        Value::Sort(u) => (th, Ok(Expr::Sort(Rc::new(u)))),
        Value::App(neu, args) => rb_spine_s(env, th, neu, args, fuel),
        Value::Lam(bi, body, en) => {
            let r1 = shift_env_s(th, en);
            match r1.1 {
                Err(e) => (r1.0, Err(e)),
                Ok(en1) => {
                    let t = r1.0.len() as usize;
                    let th2 = r1.0.push(Thunk::Res(Value::App(Neutral::FVar(0), List::Nil)));
                    let en2 = EvalEnv {
                        exprs: List::Cons(t, Rc::new(en1.exprs)),
                        univs: en1.univs,
                    };
                    let r2 = eval_s(env, th2, *body, en2, fuel);
                    match r2.1 {
                        Err(e) => (r2.0, Err(e)),
                        Ok(bv) => {
                            if fuel == 0 {
                                (r2.0, Err(KernelError::OutOfFuel))
                            } else {
                                let r3 = read_back_s(env, r2.0, bv, (fuel - 1) as nat);
                                match r3.1 {
                                    Err(e) => (r3.0, Err(e)),
                                    Ok(be) => (
                                        r3.0,
                                        Ok(
                                            Expr::Lam(
                                                bi,
                                                Rc::new(Expr::Sort(Rc::new(Univ::Zero))),
                                                Rc::new(be),
                                            ),
                                        ),
                                    ),
                                }
                            }
                        },
                    }
                },
            }
        },
        Value::Pi(bi, dom, cod, en) => {
            let r1 = shift_env_s(th, en);
            match r1.1 {
                Err(e) => (r1.0, Err(e)),
                Ok(en1) => {
                    let t = r1.0.len() as usize;
                    let th2 = r1.0.push(Thunk::Res(Value::App(Neutral::FVar(0), List::Nil)));
                    let en2 = EvalEnv {
                        exprs: List::Cons(t, Rc::new(en1.exprs)),
                        univs: en1.univs,
                    };
                    let r2 = force_s(env, th2, dom as int, fuel);
                    match r2.1 {
                        Err(e) => (r2.0, Err(e)),
                        Ok(dv) => {
                            if fuel == 0 {
                                (r2.0, Err(KernelError::OutOfFuel))
                            } else {
                                let r3 = read_back_s(env, r2.0, dv, (fuel - 1) as nat);
                                match r3.1 {
                                    Err(e) => (r3.0, Err(e)),
                                    Ok(de) => {
                                        let r4 = eval_s(env, r3.0, *cod, en2, fuel);
                                        match r4.1 {
                                            Err(e) => (r4.0, Err(e)),
                                            Ok(cv) => {
                                                let r5 = read_back_s(
                                                    env,
                                                    r4.0,
                                                    cv,
                                                    (fuel - 1) as nat,
                                                );
                                                match r5.1 {
                                                    Err(e) => (r5.0, Err(e)),
                                                    Ok(ce) => (
                                                        r5.0,
                                                        Ok(
                                                            Expr::Pi(
                                                                bi,
                                                                Rc::new(de),
                                                                Rc::new(ce),
                                                            ),
                                                        ),
                                                    ),
                                                }
                                            },
                                        }
                                    },
                                }
                            }
                        },
                    }
                },
            }
        },
        Value::Lit(l) => (th, Ok(Expr::Lit(l))),
        Value::Lty(t) => (th, Ok(Expr::Lty(t))),
    }
}

/// Quoting a spine; see `rb_spine_s`.
fn rb_spine(env: &Env, th: &mut Vec<Thunk>, neu: &Neutral, args: &List<usize>, fuel: u64) -> (r:
    Result<Expr, KernelError>)
    ensures
        ({
            let (t2, r2) = rb_spine_s(*env, old(th)@, *neu, *args, fuel as nat);
            final(th)@ == t2 && r == r2
        }),
    decreases fuel, 0int, lseq(*args).len(),
{
    match args {
        List::Nil => Ok(read_back_neutral(neu)),
        List::Cons(a, rest) => {
            match rb_spine(env, th, neu, &**rest, fuel) {
                Err(e) => Err(e),
                Ok(f_expr) => match force(env, th, *a, fuel) {
                    Err(e) => Err(e),
                    Ok(v) => {
                        if fuel == 0 {
                            return Err(KernelError::OutOfFuel);
                        }
                        match read_back(env, th, &v, fuel - 1) {
                            Err(e) => Err(e),
                            Ok(a_expr) => Ok(Expr::App(Rc::new(f_expr), Rc::new(a_expr))),
                        }
                    },
                },
            }
        },
    }
}

/// Quoting a value back into a term; computes exactly `read_back_s`.
pub fn read_back(env: &Env, th: &mut Vec<Thunk>, v: &Value, fuel: u64) -> (r: Result<
    Expr,
    KernelError,
>)
    ensures
        ({
            let (t2, r2) = read_back_s(*env, old(th)@, *v, fuel as nat);
            final(th)@ == t2 && r == r2
        }),
    decreases fuel, 1int, 0int,
{
    match v {
        Value::Sort(u) => Ok(Expr::Sort(Rc::new(clone_univ(u)))),
        Value::App(neu, args) => rb_spine(env, th, neu, args, fuel),
        Value::Lam(bi, body, en) => {
            let en1 = match shift_env(th, en) {
                Err(e) => {
                    return Err(e);
                },
                Ok(en1) => en1,
            };
            let t = crate::evaluation::result(
                th,
                Value::App(Neutral::FVar(0), List::Nil),
            );
            let en2 = EvalEnv { exprs: List::Cons(t, Rc::new(en1.exprs)), univs: en1.univs };
            match eval(env, th, body, &en2, fuel) {
                Err(e) => Err(e),
                Ok(bv) => {
                    if fuel == 0 {
                        return Err(KernelError::OutOfFuel);
                    }
                    match read_back(env, th, &bv, fuel - 1) {
                        Err(e) => Err(e),
                        Ok(be) => Ok(
                            Expr::Lam(
                                *bi,
                                Rc::new(Expr::Sort(Rc::new(Univ::Zero))),
                                Rc::new(be),
                            ),
                        ),
                    }
                },
            }
        },
        Value::Pi(bi, dom, cod, en) => {
            let en1 = match shift_env(th, en) {
                Err(e) => {
                    return Err(e);
                },
                Ok(en1) => en1,
            };
            let t = crate::evaluation::result(
                th,
                Value::App(Neutral::FVar(0), List::Nil),
            );
            let en2 = EvalEnv { exprs: List::Cons(t, Rc::new(en1.exprs)), univs: en1.univs };
            match force(env, th, *dom, fuel) {
                Err(e) => Err(e),
                Ok(dv) => {
                    if fuel == 0 {
                        return Err(KernelError::OutOfFuel);
                    }
                    match read_back(env, th, &dv, fuel - 1) {
                        Err(e) => Err(e),
                        Ok(de) => match eval(env, th, cod, &en2, fuel) {
                            Err(e) => Err(e),
                            Ok(cv) => match read_back(env, th, &cv, fuel - 1) {
                                Err(e) => Err(e),
                                Ok(ce) => Ok(Expr::Pi(*bi, Rc::new(de), Rc::new(ce))),
                            },
                        },
                    }
                },
            }
        },
        Value::Lit(l) => Ok(Expr::Lit(crate::expression::clone_literal(l))),
        Value::Lty(t) => Ok(Expr::Lty(*t)),
    }
}

} // verus!
