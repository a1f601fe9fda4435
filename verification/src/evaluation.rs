//! The lazy normalization evaluator.
//!
//! A call-by-need interpreter over de Bruijn-indexed terms producing weak-head
//! normal values. Thunks live in an arena (`Vec<Thunk>`); environments and
//! argument spines hold arena indices, never pointers. Forcing a suspended
//! thunk evaluates it once and caches the value in place; forcing a resolved
//! thunk returns the cached value.
//!
//! Every executable function mirrors a specification function exactly: the
//! contract says that the final arena and the outcome equal the mathematical
//! evaluation of the inputs. The reduction rules are function application
//! (beta), constant unfolding gated by a safety flag (delta) and
//! recursor/constructor elimination (iota). Evaluation is total: a step budget
//! (`fuel`) bounds the recursion that `Fix`, delta and iota introduce, and
//! every ill-shaped input yields an error, never a panic.

use crate::cid::ConstCid;
use crate::constant::{Const, DefSafety, RecRule};
use crate::environment::{Env, assoc};
use crate::expression::{BinderInfo, Expr, LitType, Literal, clone_literal, expr_height};
use crate::list::{List, clone_list, cons, len_is, list_get, list_append, list_skip, list_take,
    lseq, lappend_s, lskip_s, ltake_s};
use crate::universe::{Univ, clone_univ, clone_univ_list, inst_bulk_reduce, inst_univ_list,
    inst_univ_s, inst_univs_s};
use crate::{Feature, KernelError, Violation};
use std::rc::Rc;
use vstd::prelude::*;

verus! {

/// The head of a neutral application: a synthetic free variable introduced
/// during read-back, or a constant that does not reduce.
#[derive(Clone, Debug, PartialEq)]
pub enum Neutral {
    FVar(usize),
    Const(ConstCid, List<Univ>),
}

/// An evaluation environment: one thunk index per variable in scope, index
/// zero innermost, and the universe-level substitution, shared by every
/// closure captured at the same point.
#[derive(Clone, Debug, PartialEq)]
pub struct EvalEnv {
    pub exprs: List<usize>,
    pub univs: List<Univ>,
}

/// A weak-head normal value.
#[derive(Clone, Debug, PartialEq)]
pub enum Value {
    /// A sort; its level is fully reduced.
    Sort(Univ),
    /// A closure: binder tag, body and captured environment. The declared
    /// domain type is dropped, being irrelevant to reduction.
    Lam(BinderInfo, Rc<Expr>, EvalEnv),
    /// A function type: binder tag, suspended domain, codomain, environment.
    Pi(BinderInfo, usize, Rc<Expr>, EvalEnv),
    /// A neutral application: head and argument spine, most recent first.
    App(Neutral, List<usize>),
    /// A literal.
    Lit(Literal),
    /// The type of a literal.
    Lty(LitType),
}

/// A memoization cell: suspended, or resolved to its value. The transition is
/// one-directional and happens at most once per cell.
#[derive(Clone, Debug, PartialEq)]
pub enum Thunk {
    Sus(Rc<Expr>, EvalEnv),
    Res(Value),
}

/// A copy of an environment; both lists share their nodes.
pub fn clone_env(e: &EvalEnv) -> (r: EvalEnv)
    ensures
        r == *e,
{
    EvalEnv { exprs: clone_list(&e.exprs), univs: clone_univ_list(&e.univs) }
}

/// A copy of a neutral head.
pub fn clone_neutral(n: &Neutral) -> (r: Neutral)
    ensures
        r == *n,
{
    match n {
        Neutral::FVar(i) => Neutral::FVar(*i),
        Neutral::Const(c, us) => Neutral::Const(*c, clone_univ_list(us)),
    }
}

/// A copy of a value; all children are shared.
pub fn clone_value(v: &Value) -> (r: Value)
    ensures
        r == *v,
{
    match v {
        Value::Sort(u) => Value::Sort(clone_univ(u)),
        Value::Lam(bi, b, en) => Value::Lam(*bi, crate::rc_clone(b), clone_env(en)),
        Value::Pi(bi, d, c, en) => Value::Pi(*bi, *d, crate::rc_clone(c), clone_env(en)),
        Value::App(n, sp) => Value::App(clone_neutral(n), clone_list(sp)),
        Value::Lit(l) => Value::Lit(clone_literal(l)),
        Value::Lty(t) => Value::Lty(*t),
    }
}

/// The rule registered for a constructor, by identifier equality.
pub open spec fn find_rule_s(rules: List<RecRule>, c: ConstCid) -> Option<RecRule>
    decreases rules,
{
    match rules {
        List::Nil => None,
        List::Cons(r, t) => if r.ctor == c {
            Some(r)
        } else {
            find_rule_s(*t, c)
        },
    }
}

/// The rule registered for a constructor, by identifier equality.
pub fn find_rule(rules: &List<RecRule>, c: &ConstCid) -> (r: Option<RecRule>)
    ensures
        r == find_rule_s(*rules, *c),
    decreases *rules,
{
    match rules {
        List::Nil => None,
        List::Cons(r0, t) => {
            if r0.ctor == *c {
                Some(*r0)
            } else {
                find_rule(&**t, c)
            }
        },
    }
}

/// Forcing a thunk: a resolved cell yields its cached value and changes
/// nothing; a suspended cell evaluates its expression under its captured
/// environment, caches the value and yields it.
pub open spec fn force_s(env: Env, th: Seq<Thunk>, t: int, fuel: nat) -> (Seq<Thunk>, Result<
    Value,
    KernelError,
>)
    decreases fuel, 0int, 0int,
{
    if !(0 <= t < th.len()) {
        (th, Err(KernelError::Internal(Violation::ThunkOutOfRange)))
    } else {
        match th[t] {
            Thunk::Res(v) => (th, Ok(v)),
            Thunk::Sus(e, en) => {
                if fuel == 0 {
                    (th, Err(KernelError::OutOfFuel))
                } else {
                    let r = eval_s(env, th, *e, en, (fuel - 1) as nat);
                    match r.1 {
                        Ok(v) => {
                            if 0 <= t < r.0.len() {
                                (r.0.update(t, Thunk::Res(v)), Ok(v))
                            } else {
                                (r.0, Ok(v))
                            }
                        },
                        Err(er) => (r.0, Err(er)),
                    }
                }
            },
        }
    }
}

/// Delta reduction: a theorem or a definition marked safe unfolds to its body
/// evaluated in a fresh environment holding only the level substitution; a
/// definition marked unsafe is refused; every other constant kind is a neutral
/// head with an empty spine.
pub open spec fn eval_const_s(env: Env, th: Seq<Thunk>, c: ConstCid, us: List<Univ>, fuel: nat) -> (
    Seq<Thunk>,
    Result<Value, KernelError>,
)
    decreases fuel, 1int, 0int,
{
    match assoc(env.const_cache@, c) {
        None => (th, Err(KernelError::MissingConst(c))),
        Some(k) => match k {
            Const::Theorem { expr, .. } => match assoc(env.expr_cache@, expr) {
                None => (th, Err(KernelError::MissingExpr(expr))),
                Some(body) => if fuel == 0 {
                    (th, Err(KernelError::OutOfFuel))
                } else {
                    eval_s(
                        env,
                        th,
                        *body,
                        EvalEnv { exprs: List::Nil, univs: us },
                        (fuel - 1) as nat,
                    )
                },
            },
            Const::Definition { safe: DefSafety::Safe, expr, .. } => match assoc(
                env.expr_cache@,
                expr,
            ) {
                None => (th, Err(KernelError::MissingExpr(expr))),
                Some(body) => if fuel == 0 {
                    (th, Err(KernelError::OutOfFuel))
                } else {
                    eval_s(
                        env,
                        th,
                        *body,
                        EvalEnv { exprs: List::Nil, univs: us },
                        (fuel - 1) as nat,
                    )
                },
            },
            Const::Definition { safe: DefSafety::Unsafe, .. } => (
                th,
                Err(KernelError::UnsafeUnfold(c)),
            ),
            _ => (th, Ok(Value::App(Neutral::Const(c, us), List::Nil))),
        },
    }
}

/// Iota reduction, after the major premise has been forced to a constructor
/// application: look up the rule registered for that constructor identity,
/// take its declared field count from the front of the constructor's spine,
/// append the recursor spine entries past the index arguments, and evaluate
/// the rule's right-hand side in exactly that environment.
pub open spec fn iota_s(
    env: Env,
    th: Seq<Thunk>,
    indices: u64,
    rules: List<RecRule>,
    ctor_cid: ConstCid,
    ctor_args: List<usize>,
    sp: List<usize>,
    us: List<Univ>,
    fuel: nat,
) -> (Seq<Thunk>, Result<Value, KernelError>)
    decreases fuel, 1int, 0int,
{
    match find_rule_s(rules, ctor_cid) {
        None => (th, Err(KernelError::Internal(Violation::MalformedRecursion))),
        Some(rule) => match ltake_s(ctor_args, rule.fields as nat) {
            None => (th, Err(KernelError::Internal(Violation::MalformedRecursion))),
            Some(fields) => match assoc(env.expr_cache@, rule.rhs) {
                None => (th, Err(KernelError::MissingExpr(rule.rhs))),
                Some(rhs) => if fuel == 0 {
                    (th, Err(KernelError::OutOfFuel))
                } else {
                    eval_s(
                        env,
                        th,
                        *rhs,
                        EvalEnv {
                            exprs: lappend_s(fields, lskip_s(sp, indices as nat)),
                            univs: us,
                        },
                        (fuel - 1) as nat,
                    )
                },
            },
        },
    }
}

/// Applying one more argument to a neutral constant head. Only a recursor can
/// reduce; a quotient is refused; every other constant stays neutral with the
/// argument pushed onto its spine. A recursor reduces only once saturated —
/// the spine holding parameters, motives, minor premises and indices — and
/// only when its major premise forces to a constructor application; a major
/// premise stuck on a free variable stays neutral.
pub open spec fn apply_const_s(
    env: Env,
    th: Seq<Thunk>,
    c: ConstCid,
    us: List<Univ>,
    arg: usize,
    args: List<usize>,
    fuel: nat,
) -> (Seq<Thunk>, Result<Value, KernelError>)
    decreases fuel, 1int, 1int,
{
    match assoc(env.const_cache@, c) {
        None => (th, Err(KernelError::MissingConst(c))),
        Some(k) => match k {
            Const::Recursor { params, indices, motives, minors, rules, .. } => {
                if lseq(args).len() != params + motives + minors + indices {
                    (th, Ok(Value::App(Neutral::Const(c, us), List::Cons(arg, Rc::new(args)))))
                } else {
                    let r = force_s(env, th, arg as int, fuel);
                    match r.1 {
                        Err(e) => (r.0, Err(e)),
                        Ok(v) => match v {
                            Value::App(Neutral::Const(ctor_cid, ctor_us), ctor_args) => {
                                match assoc(env.const_cache@, ctor_cid) {
                                    None => (r.0, Err(KernelError::MissingConst(ctor_cid))),
                                    Some(ck) => match ck {
                                        Const::Constructor { .. } => iota_s(
                                            env,
                                            r.0,
                                            indices,
                                            rules,
                                            ctor_cid,
                                            ctor_args,
                                            args,
                                            us,
                                            fuel,
                                        ),
                                        _ => (
                                            r.0,
                                            Ok(
                                                Value::App(
                                                    Neutral::Const(c, us),
                                                    List::Cons(arg, Rc::new(args)),
                                                ),
                                            ),
                                        ),
                                    },
                                }
                            },
                            _ => (
                                r.0,
                                Ok(Value::App(Neutral::Const(c, us), List::Cons(arg, Rc::new(args)))),
                            ),
                        },
                    }
                }
            },
            Const::Quotient { .. } => (th, Err(KernelError::Unimplemented(Feature::Quotient))),
            _ => (th, Ok(Value::App(Neutral::Const(c, us), List::Cons(arg, Rc::new(args))))),
        },
    }
}

/// Weak-head evaluation of a term under an environment: the mathematical
/// meaning that the executable evaluator is proved to compute. The first
/// component is the thunk arena after evaluation — suspensions are appended by
/// laziness, resolutions cached by forcing — and the second the outcome.
pub open spec fn eval_s(env: Env, th: Seq<Thunk>, e: Expr, een: EvalEnv, fuel: nat) -> (
    Seq<Thunk>,
    Result<Value, KernelError>,
)
    decreases fuel, 2int, expr_height(e),
{
    match e {
        Expr::Var(i) => {
            if i < lseq(een.exprs).len() {
                force_s(env, th, lseq(een.exprs)[i as int] as int, fuel)
            } else {
                (th, Err(KernelError::Internal(Violation::VarOutOfScope)))
            }
        },
        Expr::Sort(l) => (th, Ok(Value::Sort(inst_univ_s(*l, lseq(een.univs))))),
        Expr::Const(c, us) => eval_const_s(env, th, c, inst_univs_s(us, lseq(een.univs)), fuel),
        Expr::App(f, a) => {
            let t = th.len() as usize;
            let th1 = th.push(Thunk::Sus(a, een));
            let r1 = eval_s(env, th1, *f, een, fuel);
            match r1.1 {
                Err(e2) => (r1.0, Err(e2)),
                Ok(v) => match v {
                    Value::Lam(_, body, lam_env) => {
                        if fuel == 0 {
                            (r1.0, Err(KernelError::OutOfFuel))
                        } else {
                            eval_s(
                                env,
                                r1.0,
                                *body,
                                EvalEnv {
                                    exprs: List::Cons(t, Rc::new(lam_env.exprs)),
                                    univs: lam_env.univs,
                                },
                                (fuel - 1) as nat,
                            )
                        }
                    },
                    Value::App(Neutral::FVar(i), sp) => (
                        r1.0,
                        Ok(Value::App(Neutral::FVar(i), List::Cons(t, Rc::new(sp)))),
                    ),
                    Value::App(Neutral::Const(c2, c_us), sp) => apply_const_s(
                        env,
                        r1.0,
                        c2,
                        inst_univs_s(c_us, lseq(een.univs)),
                        t,
                        sp,
                        fuel,
                    ),
                    _ => (r1.0, Err(KernelError::Internal(Violation::ApplyNonFunction))),
                },
            }
        },
        Expr::Lam(bi, _t, body) => (th, Ok(Value::Lam(bi, body, een))),
        Expr::Pi(bi, dom, cod) => {
            let t = th.len() as usize;
            (th.push(Thunk::Sus(dom, een)), Ok(Value::Pi(bi, t, cod, een)))
        },
        Expr::Let(_t, bound, body) => {
            let t = th.len() as usize;
            let th1 = th.push(Thunk::Sus(bound, een));
            eval_s(
                env,
                th1,
                *body,
                EvalEnv { exprs: List::Cons(t, Rc::new(een.exprs)), univs: een.univs },
                fuel,
            )
        },
        Expr::Lit(l) => (th, Ok(Value::Lit(l))),
        Expr::Lty(t) => (th, Ok(Value::Lty(t))),
        Expr::Fix(body) => {
            let t = th.len() as usize;
            let th1 = th.push(Thunk::Sus(Rc::new(e), een));
            eval_s(
                env,
                th1,
                *body,
                EvalEnv { exprs: List::Cons(t, Rc::new(een.exprs)), univs: een.univs },
                fuel,
            )
        },
        Expr::Proj(_, _) => (th, Err(KernelError::Unimplemented(Feature::Projection))),
    }
}

/// Appends a resolved thunk holding `v` and returns its index.
pub fn result(th: &mut Vec<Thunk>, v: Value) -> (t: usize)
    ensures
        final(th)@ == old(th)@.push(Thunk::Res(v)),
        t == old(th)@.len(),
{
    let t = th.len();
    th.push(Thunk::Res(v));
    t
}

/// Appends a suspended thunk — no evaluation happens — and returns its index.
pub fn suspend(th: &mut Vec<Thunk>, e: Rc<Expr>, een: EvalEnv) -> (t: usize)
    ensures
        final(th)@ == old(th)@.push(Thunk::Sus(e, een)),
        t == old(th)@.len(),
{
    let t = th.len();
    th.push(Thunk::Sus(e, een));
    t
}

/// Forces the thunk at `t`: at most one evaluation of its suspended
/// expression ever runs; later forces observe the cached value.
pub fn force(env: &Env, th: &mut Vec<Thunk>, t: usize, fuel: u64) -> (r: Result<
    Value,
    KernelError,
>)
    ensures
        ({
            let (t2, r2) = force_s(*env, old(th)@, t as int, fuel as nat);
            final(th)@ == t2 && r == r2
        }),
    decreases fuel, 0int, 0int,
{
    if t >= th.len() {
        return Err(KernelError::Internal(Violation::ThunkOutOfRange));
    }
    let (e, en) = match &th[t] {
        Thunk::Res(v) => {
            return Ok(clone_value(v));
        },
        Thunk::Sus(e, en) => (crate::rc_clone(e), clone_env(en)),
    };
    if fuel == 0 {
        return Err(KernelError::OutOfFuel);
    }
    match eval(env, th, &e, &en, fuel - 1) {
        Ok(v) => {
            if t < th.len() {
                let c = clone_value(&v);
                th[t] = Thunk::Res(c);
            }
            Ok(v)
        },
        Err(er) => Err(er),
    }
}

/// Delta reduction of a constant reference; see `eval_const_s`.
pub fn eval_const(env: &Env, th: &mut Vec<Thunk>, c: ConstCid, us: List<Univ>, fuel: u64) -> (r:
    Result<Value, KernelError>)
    ensures
        ({
            let (t2, r2) = eval_const_s(*env, old(th)@, c, us, fuel as nat);
            final(th)@ == t2 && r == r2
        }),
    decreases fuel, 1int, 0int,
{
    match env.get_const(&c) {
        None => Err(KernelError::MissingConst(c)),
        Some(k) => match k {
            Const::Theorem { expr, .. } => match env.get_expr(expr) {
                None => Err(KernelError::MissingExpr(*expr)),
                Some(body) => {
                    if fuel == 0 {
                        return Err(KernelError::OutOfFuel);
                    }
                    let fresh = EvalEnv { exprs: List::Nil, univs: us };
                    eval(env, th, &body, &fresh, fuel - 1)
                },
            },
            Const::Definition { safe: DefSafety::Safe, expr, .. } => match env.get_expr(expr) {
                None => Err(KernelError::MissingExpr(*expr)),
                Some(body) => {
                    if fuel == 0 {
                        return Err(KernelError::OutOfFuel);
                    }
                    let fresh = EvalEnv { exprs: List::Nil, univs: us };
                    eval(env, th, &body, &fresh, fuel - 1)
                },
            },
            Const::Definition { safe: DefSafety::Unsafe, .. } => Err(
                KernelError::UnsafeUnfold(c),
            ),
            _ => Ok(Value::App(Neutral::Const(c, us), List::Nil)),
        },
    }
}

/// Iota reduction after the major premise forced to a constructor; see
/// `iota_s`.
fn iota(
    env: &Env,
    th: &mut Vec<Thunk>,
    indices: u64,
    rules: &List<RecRule>,
    ctor_cid: ConstCid,
    ctor_args: &List<usize>,
    sp: &List<usize>,
    us: List<Univ>,
    fuel: u64,
) -> (r: Result<Value, KernelError>)
    ensures
        ({
            let (t2, r2) = iota_s(
                *env,
                old(th)@,
                indices,
                *rules,
                ctor_cid,
                *ctor_args,
                *sp,
                us,
                fuel as nat,
            );
            final(th)@ == t2 && r == r2
        }),
    decreases fuel, 1int, 0int,
{
    match find_rule(rules, &ctor_cid) {
        None => Err(KernelError::Internal(Violation::MalformedRecursion)),
        Some(rule) => match list_take(ctor_args, rule.fields) {
            None => Err(KernelError::Internal(Violation::MalformedRecursion)),
            Some(fields) => match env.get_expr(&rule.rhs) {
                None => Err(KernelError::MissingExpr(rule.rhs)),
                Some(rhs) => {
                    if fuel == 0 {
                        return Err(KernelError::OutOfFuel);
                    }
                    let rest = list_skip(sp, indices);
                    let e2 = EvalEnv { exprs: list_append(&fields, &rest), univs: us };
                    eval(env, th, &rhs, &e2, fuel - 1)
                },
            },
        },
    }
}

/// Applies one more argument to a neutral constant head; see `apply_const_s`.
pub fn apply_const(
    env: &Env,
    th: &mut Vec<Thunk>,
    c: ConstCid,
    us: List<Univ>,
    arg: usize,
    args: List<usize>,
    fuel: u64,
) -> (r: Result<Value, KernelError>)
    ensures
        ({
            let (t2, r2) = apply_const_s(*env, old(th)@, c, us, arg, args, fuel as nat);
            final(th)@ == t2 && r == r2
        }),
    decreases fuel, 1int, 1int,
{
    match env.get_const(&c) {
        None => Err(KernelError::MissingConst(c)),
        Some(k) => match k {
            Const::Recursor { params, indices, motives, minors, rules, .. } => {
                let major: u128 = *params as u128 + *motives as u128 + *minors as u128 + *indices
                    as u128;
                if !len_is(&args, major) {
                    Ok(Value::App(Neutral::Const(c, us), cons(arg, &args)))
                } else {
                    match force(env, th, arg, fuel) {
                        Err(e) => Err(e),
                        Ok(v) => match v {
                            Value::App(Neutral::Const(ctor_cid, _ctor_us), ctor_args) => {
                                match env.get_const(&ctor_cid) {
                                    None => Err(KernelError::MissingConst(ctor_cid)),
                                    Some(ck) => match ck {
                                        Const::Constructor { .. } => iota(
                                            env,
                                            th,
                                            *indices,
                                            rules,
                                            ctor_cid,
                                            &ctor_args,
                                            &args,
                                            us,
                                            fuel,
                                        ),
                                        _ => Ok(
                                            Value::App(Neutral::Const(c, us), cons(arg, &args)),
                                        ),
                                    },
                                }
                            },
                            _ => Ok(Value::App(Neutral::Const(c, us), cons(arg, &args))),
                        },
                    }
                }
            },
            Const::Quotient { .. } => Err(KernelError::Unimplemented(Feature::Quotient)),
            _ => Ok(Value::App(Neutral::Const(c, us), cons(arg, &args))),
        },
    }
}

/// Weak-head evaluation; computes exactly `eval_s` on its inputs. Laziness:
/// an application suspends its argument without evaluating it; the argument
/// is forced only if the callee uses it.
pub fn eval(env: &Env, th: &mut Vec<Thunk>, e: &Rc<Expr>, een: &EvalEnv, fuel: u64) -> (r: Result<
    Value,
    KernelError,
>)
    ensures
        ({
            let (t2, r2) = eval_s(*env, old(th)@, **e, *een, fuel as nat);
            final(th)@ == t2 && r == r2
        }),
    decreases fuel, 2int, expr_height(**e),
{
    match &**e {
        Expr::Var(i) => match list_get(&een.exprs, *i) {
            Some(t) => force(env, th, t, fuel),
            None => Err(KernelError::Internal(Violation::VarOutOfScope)),
        },
        Expr::Sort(l) => Ok(Value::Sort(inst_bulk_reduce(&**l, &een.univs))),
        Expr::Const(c, us) => eval_const(env, th, *c, inst_univ_list(us, &een.univs), fuel),
        Expr::App(f, a) => {
            let t = suspend(th, crate::rc_clone(a), clone_env(een));
            match eval(env, th, f, een, fuel) {
                Err(e2) => Err(e2),
                Ok(v) => match v {
                    Value::Lam(_, body, lam_env) => {
                        if fuel == 0 {
                            return Err(KernelError::OutOfFuel);
                        }
                        let e2 = EvalEnv {
                            exprs: List::Cons(t, Rc::new(lam_env.exprs)),
                            univs: lam_env.univs,
                        };
                        eval(env, th, &body, &e2, fuel - 1)
                    },
                    Value::App(Neutral::FVar(i), sp) => Ok(
                        Value::App(Neutral::FVar(i), List::Cons(t, Rc::new(sp))),
                    ),
                    Value::App(Neutral::Const(c2, c_us), sp) => {
                        let us2 = inst_univ_list(&c_us, &een.univs);
                        apply_const(env, th, c2, us2, t, sp, fuel)
                    },
                    _ => Err(KernelError::Internal(Violation::ApplyNonFunction)),
                },
            }
        },
        Expr::Lam(bi, _t, body) => Ok(Value::Lam(*bi, crate::rc_clone(body), clone_env(een))),
        Expr::Pi(bi, dom, cod) => {
            let t = suspend(th, crate::rc_clone(dom), clone_env(een));
            Ok(Value::Pi(*bi, t, crate::rc_clone(cod), clone_env(een)))
        },
        Expr::Let(_t, bound, body) => {
            let t = suspend(th, crate::rc_clone(bound), clone_env(een));
            let e2 = EvalEnv { exprs: cons(t, &een.exprs), univs: clone_univ_list(&een.univs) };
            eval(env, th, body, &e2, fuel)
        },
        Expr::Lit(l) => Ok(Value::Lit(clone_literal(l))),
        Expr::Lty(t) => Ok(Value::Lty(*t)),
        Expr::Fix(body) => {
            let t = suspend(th, crate::rc_clone(e), clone_env(een));
            let e2 = EvalEnv { exprs: cons(t, &een.exprs), univs: clone_univ_list(&een.univs) };
            eval(env, th, body, &e2, fuel)
        },
        Expr::Proj(_, _) => Err(KernelError::Unimplemented(Feature::Projection)),
    }
}

} // verus!
