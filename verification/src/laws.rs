//! The laws the kernel is built around, stated and proved once and for all.
//!
//! Each proof function here states one property of the content-addressed
//! store or of the evaluator over the same specification functions that the
//! executable functions are proved to compute, so every law transfers to the
//! running code through those contracts.

use crate::cid::ConstCid;
use crate::constant::{
    Const, ConstAnon, ConstMeta, DefSafety, QuotKind, RecRule, anon_of, const_anon_cid_s,
    const_cid_s, const_meta_cid_s, ctors_anon_s, meta_of,
};
use crate::environment::{Env, assoc, insert_s, lemma_insert, unique_keys};
use crate::evaluation::{
    EvalEnv, Neutral, Thunk, Value, apply_const_s, eval_const_s, eval_s, find_rule_s, iota_s,
};
use crate::expression::{BinderInfo, Expr};
use crate::list::{List, lappend_s, lseq, lskip_s, ltake_s};
use crate::readback::read_back_s;
use crate::universe::{Univ, inst_univs_s, lemma_inst_concrete_identity, univ_concrete};
use crate::{KernelError, cid::ExprCid};
use std::rc::Rc;
use vstd::prelude::*;

verus! {

/// The full sub-expression identifiers of a constructor list, names dropped.
pub open spec fn ctor_cids_s(l: List<(String, ExprCid)>) -> List<ExprCid>
    decreases l,
{
    match l {
        List::Nil => List::Nil,
        List::Cons(p, t) => List::Cons(p.1, Rc::new(ctor_cids_s(*t))),
    }
}

/// Two declarations that differ at most in their chosen names: same variant,
/// same counts and flags, same sub-identifiers, and level-parameter lists of
/// the same length — the names themselves free.
pub open spec fn same_modulo_names(c1: Const, c2: Const) -> bool {
    match (c1, c2) {
        (
            Const::Axiom { name: _, lvl: l1, typ: t1, safe: s1 },
            Const::Axiom { name: _, lvl: l2, typ: t2, safe: s2 },
        ) => lseq(l1).len() == lseq(l2).len() && t1 == t2 && s1 == s2,
        (
            Const::Theorem { name: _, lvl: l1, typ: t1, expr: e1 },
            Const::Theorem { name: _, lvl: l2, typ: t2, expr: e2 },
        ) => lseq(l1).len() == lseq(l2).len() && t1 == t2 && e1 == e2,
        (
            Const::Opaque { name: _, lvl: l1, typ: t1, expr: e1, safe: s1 },
            Const::Opaque { name: _, lvl: l2, typ: t2, expr: e2, safe: s2 },
        ) => lseq(l1).len() == lseq(l2).len() && t1 == t2 && e1 == e2 && s1 == s2,
        (
            Const::Definition { name: _, lvl: l1, typ: t1, expr: e1, safe: s1 },
            Const::Definition { name: _, lvl: l2, typ: t2, expr: e2, safe: s2 },
        ) => lseq(l1).len() == lseq(l2).len() && t1 == t2 && e1 == e2 && s1 == s2,
        (
            Const::Inductive {
                name: _,
                lvl: l1,
                typ: t1,
                params: p1,
                indices: i1,
                ctors: c1_,
                recr: r1,
                safe: s1,
                refl: f1,
                nest: n1,
            },
            Const::Inductive {
                name: _,
                lvl: l2,
                typ: t2,
                params: p2,
                indices: i2,
                ctors: c2_,
                recr: r2,
                safe: s2,
                refl: f2,
                nest: n2,
            },
        ) => lseq(l1).len() == lseq(l2).len() && t1 == t2 && p1 == p2 && i1 == i2 && ctor_cids_s(
            c1_,
        ) == ctor_cids_s(c2_) && r1 == r2 && s1 == s2 && f1 == f2 && n1 == n2,
        (
            Const::Constructor { name: _, lvl: l1, ind: d1, typ: t1, param: p1, field: f1, safe: s1 },
            Const::Constructor { name: _, lvl: l2, ind: d2, typ: t2, param: p2, field: f2, safe: s2 },
        ) => lseq(l1).len() == lseq(l2).len() && d1 == d2 && t1 == t2 && p1 == p2 && f1 == f2
            && s1 == s2,
        (
            Const::Recursor {
                lvl: l1,
                ind: d1,
                typ: t1,
                params: p1,
                indices: i1,
                motives: m1,
                minors: n1,
                rules: r1,
                k: k1,
                safe: s1,
            },
            Const::Recursor {
                lvl: l2,
                ind: d2,
                typ: t2,
                params: p2,
                indices: i2,
                motives: m2,
                minors: n2,
                rules: r2,
                k: k2,
                safe: s2,
            },
        ) => lseq(l1).len() == lseq(l2).len() && d1 == d2 && t1 == t2 && p1 == p2 && i1 == i2
            && m1 == m2 && n1 == n2 && r1 == r2 && k1 == k2 && s1 == s2,
        (Const::Quotient { kind: k1 }, Const::Quotient { kind: k2 }) => k1 == k2,
        _ => false,
    }
}

/// Constructor lists with the same sub-identifiers project to the same
/// anonymous identifier list, whatever the names.
proof fn lemma_ctors_anon_ignores_names(l1: &List<(String, ExprCid)>, l2: &List<(String, ExprCid)>)
    requires
        ctor_cids_s(*l1) == ctor_cids_s(*l2),
    ensures
        ctors_anon_s(*l1) == ctors_anon_s(*l2),
    decreases *l1,
{
    match l1 {
        List::Nil => {
            assert(ctor_cids_s(*l2) == List::Nil::<ExprCid>);
        },
        List::Cons(_, t1) => {
            match l2 {
                List::Nil => {},
                List::Cons(_, t2) => {
                    lemma_ctors_anon_ignores_names(&**t1, &**t2);
                },
            }
        },
    }
}

/// Content-identifier determinism: two declarations that are structurally
/// equal and differ only in their chosen names share their anonymous
/// identifier. The metadata identifiers differ along with the encoded names;
/// that the digests then differ rests on the hash being collision-free, which
/// is a cryptographic assumption and not a theorem, so it is exercised by
/// tests rather than stated here.
pub proof fn lemma_cid_deterministic(c1: &Const, c2: &Const)
    requires
        same_modulo_names(*c1, *c2),
    ensures
        anon_of(*c1) == anon_of(*c2),
        const_cid_s(*c1).anon == const_cid_s(*c2).anon,
{
    match c1 {
        Const::Inductive { ctors: x1, .. } => {
            match c2 {
                Const::Inductive { ctors: x2, .. } => {
                    lemma_ctors_anon_ignores_names(&*x1, &*x2);
                },
                _ => {},
            }
        },
        _ => {},
    }
}

/// Store idempotence: the identifier of a declaration is a pure function of
/// its content, inserting a payload that is already present changes nothing,
/// and after an insertion the store holds exactly one entry for that content.
pub proof fn lemma_store_idempotent(
    consts: Seq<(ConstCid, Const)>,
    anons: Seq<(crate::cid::ConstAnonCid, ConstAnon)>,
    metas: Seq<(crate::cid::ConstMetaCid, ConstMeta)>,
    c: Const,
)
    requires
        unique_keys(consts),
        unique_keys(anons),
        unique_keys(metas),
    ensures
        ({
            let id = const_cid_s(c);
            let once = insert_s(consts, id, c);
            insert_s(once, id, c) == once && assoc(once, id) is Some && unique_keys(once)
        }),
        ({
            let a = anon_of(c);
            let once = insert_s(anons, const_anon_cid_s(a), a);
            insert_s(once, const_anon_cid_s(a), a) == once && assoc(once, const_anon_cid_s(a))
                is Some && unique_keys(once)
        }),
        ({
            let m = meta_of(c);
            let once = insert_s(metas, const_meta_cid_s(m), m);
            insert_s(once, const_meta_cid_s(m), m) == once && assoc(once, const_meta_cid_s(m))
                is Some && unique_keys(once)
        }),
{
    lemma_insert(consts, const_cid_s(c), c);
    lemma_insert(anons, const_anon_cid_s(anon_of(c)), anon_of(c));
    lemma_insert(metas, const_meta_cid_s(meta_of(c)), meta_of(c));
}

/// Beta law: an application whose callee is a lambda evaluates the lambda's
/// body in the closure environment extended at the front with the suspended
/// argument — the argument is suspended, never evaluated first.
pub proof fn lemma_beta(
    env: Env,
    th: Seq<Thunk>,
    bi: BinderInfo,
    ty: Rc<Expr>,
    body: Rc<Expr>,
    arg: Rc<Expr>,
    een: EvalEnv,
    fuel: nat,
)
    requires
        fuel >= 1,
    ensures
        ({
            let t = th.len() as usize;
            let th1 = th.push(Thunk::Sus(arg, een));
            eval_s(env, th, Expr::App(Rc::new(Expr::Lam(bi, ty, body)), arg), een, fuel)
                == eval_s(
                env,
                th1,
                *body,
                EvalEnv { exprs: List::Cons(t, Rc::new(een.exprs)), univs: een.univs },
                (fuel - 1) as nat,
            )
        }),
{
    let th1 = th.push(Thunk::Sus(arg, een));
    assert(eval_s(env, th1, Expr::Lam(bi, ty, body), een, fuel) == (
        th1,
        Ok::<Value, KernelError>(Value::Lam(bi, body, een)),
    ));
}

/// Delta law for theorems and safe definitions: a constant reference whose
/// declaration is a theorem, or a definition marked safe, evaluates exactly as
/// its stored body does in a fresh environment holding only the instantiated
/// levels.
pub proof fn lemma_delta_safe(
    env: Env,
    th: Seq<Thunk>,
    c: ConstCid,
    us: List<Univ>,
    een: EvalEnv,
    bcid: ExprCid,
    body: Rc<Expr>,
    fuel: nat,
)
    requires
        fuel >= 1,
        match assoc(env.const_cache@, c) {
            Some(Const::Theorem { expr, .. }) => expr == bcid,
            Some(Const::Definition { safe: DefSafety::Safe, expr, .. }) => expr == bcid,
            _ => false,
        },
        assoc(env.expr_cache@, bcid) == Some(body),
    ensures
        eval_s(env, th, Expr::Const(c, us), een, fuel) == eval_s(
            env,
            th,
            *body,
            EvalEnv { exprs: List::Nil, univs: inst_univs_s(us, lseq(een.univs)) },
            (fuel - 1) as nat,
        ),
{
    assert(eval_s(env, th, Expr::Const(c, us), een, fuel) == eval_const_s(
        env,
        th,
        c,
        inst_univs_s(us, lseq(een.univs)),
        fuel,
    ));
    assert(eval_const_s(env, th, c, inst_univs_s(us, lseq(een.univs)), fuel) == eval_s(
        env,
        th,
        *body,
        EvalEnv { exprs: List::Nil, univs: inst_univs_s(us, lseq(een.univs)) },
        (fuel - 1) as nat,
    ));
}

/// Delta rejection for unsafe definitions: evaluating a reference to a
/// definition marked unsafe fails with the unsafe-unfolding error naming that
/// constant — it never unfolds silently, whatever the fuel.
pub proof fn lemma_delta_unsafe(
    env: Env,
    th: Seq<Thunk>,
    c: ConstCid,
    us: List<Univ>,
    een: EvalEnv,
    fuel: nat,
)
    requires
        assoc(env.const_cache@, c) matches Some(Const::Definition { safe: DefSafety::Unsafe, .. }),
    ensures
        eval_s(env, th, Expr::Const(c, us), een, fuel) == (
            th,
            Err::<Value, KernelError>(KernelError::UnsafeUnfold(c)),
        ),
{
    assert(eval_s(env, th, Expr::Const(c, us), een, fuel) == eval_const_s(
        env,
        th,
        c,
        inst_univs_s(us, lseq(een.univs)),
        fuel,
    ));
    assert(eval_const_s(env, th, c, inst_univs_s(us, lseq(een.univs)), fuel) == (
        th,
        Err::<Value, KernelError>(KernelError::UnsafeUnfold(c)),
    ));
}

/// A saturated recursor application whose major premise is already forced to
/// a constructor application dispatches to iota reduction on that
/// constructor's identity.
pub proof fn lemma_apply_saturated(
    env: Env,
    th: Seq<Thunk>,
    c: ConstCid,
    us: List<Univ>,
    argt: usize,
    sp: List<usize>,
    lvl: List<String>,
    ind: ConstCid,
    typ: ExprCid,
    params: u64,
    indices: u64,
    motives: u64,
    minors: u64,
    rules: List<RecRule>,
    k: bool,
    safe: bool,
    ctor_cid: ConstCid,
    ctor_us: List<Univ>,
    ctor_args: List<usize>,
    fuel: nat,
)
    requires
        assoc(env.const_cache@, c) == Some(
            Const::Recursor { lvl, ind, typ, params, indices, motives, minors, rules, k, safe },
        ),
        lseq(sp).len() == params + motives + minors + indices,
        0 <= argt < th.len(),
        th[argt as int] == Thunk::Res(Value::App(Neutral::Const(ctor_cid, ctor_us), ctor_args)),
        assoc(env.const_cache@, ctor_cid) matches Some(Const::Constructor { .. }),
    ensures
        apply_const_s(env, th, c, us, argt, sp, fuel) == iota_s(
            env,
            th,
            indices,
            rules,
            ctor_cid,
            ctor_args,
            sp,
            us,
            fuel,
        ),
{
}

/// Iota law: once the rule registered for the constructor is found, the rule's
/// right-hand side is evaluated in an environment holding exactly the rule's
/// declared count of constructor fields followed by the recursor spine past
/// the index arguments, under the recursor's level substitution.
pub proof fn lemma_iota_fires(
    env: Env,
    th: Seq<Thunk>,
    indices: u64,
    rules: List<RecRule>,
    ctor_cid: ConstCid,
    ctor_args: List<usize>,
    sp: List<usize>,
    us: List<Univ>,
    rule: RecRule,
    fields: List<usize>,
    rhs: Rc<Expr>,
    fuel: nat,
)
    requires
        fuel >= 1,
        find_rule_s(rules, ctor_cid) == Some(rule),
        ltake_s(ctor_args, rule.fields as nat) == Some(fields),
        assoc(env.expr_cache@, rule.rhs) == Some(rhs),
    ensures
        iota_s(env, th, indices, rules, ctor_cid, ctor_args, sp, us, fuel) == eval_s(
            env,
            th,
            *rhs,
            EvalEnv { exprs: lappend_s(fields, lskip_s(sp, indices as nat)), univs: us },
            (fuel - 1) as nat,
        ),
{
}

/// A saturated recursor application whose major premise is a neutral free
/// variable stays neutral — a stuck elimination — and never raises an error.
pub proof fn lemma_stuck_recursor(
    env: Env,
    th: Seq<Thunk>,
    c: ConstCid,
    us: List<Univ>,
    argt: usize,
    sp: List<usize>,
    lvl: List<String>,
    ind: ConstCid,
    typ: ExprCid,
    params: u64,
    indices: u64,
    motives: u64,
    minors: u64,
    rules: List<RecRule>,
    k: bool,
    safe: bool,
    i: usize,
    fargs: List<usize>,
    fuel: nat,
)
    requires
        assoc(env.const_cache@, c) == Some(
            Const::Recursor { lvl, ind, typ, params, indices, motives, minors, rules, k, safe },
        ),
        lseq(sp).len() == params + motives + minors + indices,
        0 <= argt < th.len(),
        th[argt as int] == Thunk::Res(Value::App(Neutral::FVar(i), fargs)),
    ensures
        apply_const_s(env, th, c, us, argt, sp, fuel) == (
            th,
            Ok::<Value, KernelError>(
                Value::App(Neutral::Const(c, us), List::Cons(argt, Rc::new(sp))),
            ),
        ),
{
}

/// Applying a quotient constant past its head is reported unimplemented,
/// explicitly and distinctly, rather than reduced by an invented rule.
pub proof fn lemma_quotient_unimplemented(
    env: Env,
    th: Seq<Thunk>,
    c: ConstCid,
    us: List<Univ>,
    argt: usize,
    sp: List<usize>,
    kind: QuotKind,
    fuel: nat,
)
    requires
        assoc(env.const_cache@, c) == Some(Const::Quotient { kind }),
    ensures
        apply_const_s(env, th, c, us, argt, sp, fuel) == (
            th,
            Err::<Value, KernelError>(KernelError::Unimplemented(crate::Feature::Quotient)),
        ),
{
}

/// One slice of read-back idempotence, proved in full: a sort value over a
/// concrete level quotes to a sort term, and evaluating that term — in any
/// store, arena and environment — yields the very same value again.
pub proof fn lemma_readback_sort_idempotent(
    env: Env,
    th: Seq<Thunk>,
    u: Univ,
    een: EvalEnv,
    fuel: nat,
)
    requires
        univ_concrete(u),
    ensures
        read_back_s(env, th, Value::Sort(u), fuel) == (
            th,
            Ok::<Expr, KernelError>(Expr::Sort(Rc::new(u))),
        ),
        eval_s(env, th, Expr::Sort(Rc::new(u)), een, fuel) == (
            th,
            Ok::<Value, KernelError>(Value::Sort(u)),
        ),
{
    lemma_inst_concrete_identity(&u, lseq(een.univs));
}

} // verus!

