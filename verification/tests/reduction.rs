//! Evaluation and read-back behavior: beta, delta, iota, stuck eliminations,
//! and the explicit errors for everything the kernel refuses to reduce.

use std::rc::Rc;
use yatima_kernel::Feature;
use yatima_kernel::KernelError;
use yatima_kernel::Violation;
use yatima_kernel::cid::{ConstCid, ExprCid};
use yatima_kernel::constant::{Const, DefSafety, QuotKind, RecRule};
use yatima_kernel::environment::Env;
use yatima_kernel::evaluation::{EvalEnv, Neutral, Thunk, Value, eval, force, result, suspend};
use yatima_kernel::expression::{BinderInfo, Expr};
use yatima_kernel::list::List;
use yatima_kernel::readback::read_back;
use yatima_kernel::universe::Univ;

const FUEL: u64 = 100_000;

fn rc(e: Expr) -> Rc<Expr> {
    Rc::new(e)
}

fn prop() -> Expr {
    Expr::Sort(Rc::new(Univ::Zero))
}

fn sort(n: u64) -> Expr {
    let mut u = Univ::Zero;
    for _ in 0..n {
        u = Univ::Succ(Rc::new(u));
    }
    Expr::Sort(Rc::new(u))
}

fn var(i: usize) -> Expr {
    Expr::Var(i)
}

fn lam(ty: Expr, body: Expr) -> Expr {
    Expr::Lam(BinderInfo::Default, rc(ty), rc(body))
}

fn pi(dom: Expr, cod: Expr) -> Expr {
    Expr::Pi(BinderInfo::Default, rc(dom), rc(cod))
}

fn app(f: Expr, a: Expr) -> Expr {
    Expr::App(rc(f), rc(a))
}

fn cref(c: ConstCid) -> Expr {
    Expr::Const(c, List::Nil)
}

fn empty_env() -> EvalEnv {
    EvalEnv { exprs: List::Nil, univs: List::Nil }
}

fn normalize(env: &Env, inp: Expr) -> Expr {
    let mut th: Vec<Thunk> = Vec::new();
    let v = eval(env, &mut th, &rc(inp), &empty_env(), FUEL).unwrap();
    read_back(env, &mut th, &v, FUEL).unwrap()
}

fn check_reduce(inp: Expr, red: Expr) {
    let env = Env::new();
    let act = normalize(&env, inp);
    assert_eq!(act, red);
}

fn check_read_back(inp: Expr) {
    let red = inp.clone();
    check_reduce(inp, red);
}

/// A store holding a placeholder type, and that type's identifier.
fn env_with_type() -> (Env, ExprCid) {
    let mut env = Env::new();
    let tcid = env.store_expr(&rc(sort(1)));
    (env, tcid)
}

#[test]
fn test_read_back() {
    // Π (x : Prop) (y : Prop) → x
    check_read_back(pi(prop(), pi(prop(), var(1))));
    // λ (x : Prop) (y : Prop) => x
    check_read_back(lam(prop(), lam(prop(), var(1))));
    // λ (x : Prop) (y : Prop) => Π (a : Prop) (b : Prop) → a b x y
    check_read_back(lam(
        prop(),
        lam(prop(), pi(prop(), pi(prop(), app(app(app(var(1), var(0)), var(3)), var(2))))),
    ));
    // λ (f : Prop) (x : Prop) => f x
    check_read_back(lam(prop(), lam(prop(), app(var(1), var(0)))));
}

#[test]
fn test_lam() {
    // λ (a: Prop) => a reduces to itself
    check_reduce(lam(prop(), var(0)), lam(prop(), var(0)));
}

#[test]
fn test_app_lam() {
    // (λ (a: Sort 1) => a) Prop → Prop
    check_reduce(app(lam(sort(1), var(0)), prop()), prop());
    // (λ (a: Sort 1) (b: Sort 2) => a) Prop (Sort 1) → Prop
    check_reduce(app(app(lam(sort(1), lam(sort(2), var(1))), prop()), sort(1)), prop());
    // (λ (a: Sort 1) (b: Sort 2) => b) Prop (Sort 1) → Sort 1
    check_reduce(app(app(lam(sort(1), lam(sort(2), var(0))), prop()), sort(1)), sort(1));
}

#[test]
fn normalization_is_idempotent() {
    // reading back once and normalizing again changes nothing further
    let env = Env::new();
    let once = normalize(&env, app(lam(sort(1), var(0)), prop()));
    let twice = normalize(&env, once.clone());
    assert_eq!(once, twice);
}

#[test]
fn beta_step_matches_direct_evaluation() {
    // evaluating App(Lam(_, body, env), arg) equals evaluating the body in the
    // closure environment extended with the suspended argument
    let env = Env::new();
    let body = rc(pi(var(0), var(1)));
    let arg = rc(prop());

    let mut th1: Vec<Thunk> = Vec::new();
    let whole = Expr::App(
        rc(Expr::Lam(BinderInfo::Default, rc(sort(1)), body.clone())),
        arg.clone(),
    );
    let v1 = eval(&env, &mut th1, &rc(whole), &empty_env(), FUEL).unwrap();
    let r1 = read_back(&env, &mut th1, &v1, FUEL).unwrap();

    let mut th2: Vec<Thunk> = Vec::new();
    let t = suspend(&mut th2, arg, empty_env());
    let extended = EvalEnv { exprs: List::Cons(t, Rc::new(List::Nil)), univs: List::Nil };
    let v2 = eval(&env, &mut th2, &body, &extended, FUEL - 1).unwrap();
    let r2 = read_back(&env, &mut th2, &v2, FUEL).unwrap();

    assert_eq!(r1, r2);
}

#[test]
fn force_caches_its_value() {
    // the second force needs no fuel at all: it reads the cached value
    let env = Env::new();
    let mut th: Vec<Thunk> = Vec::new();
    let t = suspend(&mut th, rc(app(lam(sort(1), var(0)), prop())), empty_env());
    let first = force(&env, &mut th, t, FUEL).unwrap();
    let second = force(&env, &mut th, t, 0).unwrap();
    assert_eq!(first, second);
    assert!(matches!(first, Value::Sort(Univ::Zero)));
}

#[test]
fn delta_unfolds_theorem_and_safe_definition() {
    let (mut env, tcid) = env_with_type();
    let bcid = env.store_expr(&rc(sort(1)));
    let thm = Const::Theorem { name: "one".to_string(), lvl: List::Nil, typ: tcid, expr: bcid };
    let thm_cid = thm.store(&mut env).unwrap();
    assert_eq!(normalize(&env, cref(thm_cid)), sort(1));

    let def = Const::Definition {
        name: "one_def".to_string(),
        lvl: List::Nil,
        typ: tcid,
        expr: bcid,
        safe: DefSafety::Safe,
    };
    let def_cid = def.store(&mut env).unwrap();
    assert_eq!(normalize(&env, cref(def_cid)), sort(1));
}

#[test]
fn delta_rejects_unsafe_definition() {
    let (mut env, tcid) = env_with_type();
    let bcid = env.store_expr(&rc(sort(1)));
    let def = Const::Definition {
        name: "shady".to_string(),
        lvl: List::Nil,
        typ: tcid,
        expr: bcid,
        safe: DefSafety::Unsafe,
    };
    let cid = def.store(&mut env).unwrap();
    let mut th: Vec<Thunk> = Vec::new();
    let r = eval(&env, &mut th, &rc(cref(cid)), &empty_env(), FUEL);
    assert_eq!(r, Err(KernelError::UnsafeUnfold(cid)));
}

#[test]
fn partial_definition_and_postulate_stay_neutral() {
    let (mut env, tcid) = env_with_type();
    let bcid = env.store_expr(&rc(sort(1)));
    let part = Const::Definition {
        name: "partial".to_string(),
        lvl: List::Nil,
        typ: tcid,
        expr: bcid,
        safe: DefSafety::Partial,
    };
    let pcid = part.store(&mut env).unwrap();
    let mut th: Vec<Thunk> = Vec::new();
    let v = eval(&env, &mut th, &rc(cref(pcid)), &empty_env(), FUEL).unwrap();
    assert!(matches!(v, Value::App(Neutral::Const(c, _), List::Nil) if c == pcid));

    let ax = Const::Axiom { name: "ax".to_string(), lvl: List::Nil, typ: tcid, safe: true };
    let acid = ax.store(&mut env).unwrap();
    let mut th2: Vec<Thunk> = Vec::new();
    let v2 = eval(&env, &mut th2, &rc(cref(acid)), &empty_env(), FUEL).unwrap();
    assert!(matches!(v2, Value::App(Neutral::Const(c, _), List::Nil) if c == acid));
}

/// A tiny inductive of naturals: constructors zero and succ, and a recursor
/// over one motive and two minor premises, no parameters, no indices.
/// The zero rule picks the zero-case minor premise; the succ rule applies the
/// succ-case minor premise to the constructor's field.
fn nat_setup() -> (Env, ConstCid, ConstCid, ConstCid) {
    let (mut env, tcid) = env_with_type();
    let ind = Const::Inductive {
        name: "Nat".to_string(),
        lvl: List::Nil,
        typ: tcid,
        params: 0,
        indices: 0,
        ctors: List::Cons(
            ("zero".to_string(), tcid),
            Rc::new(List::Cons(("succ".to_string(), tcid), Rc::new(List::Nil))),
        ),
        recr: true,
        safe: true,
        refl: false,
        nest: false,
    };
    let ind_cid = ind.store(&mut env).unwrap();
    let zero = Const::Constructor {
        name: "zero".to_string(),
        lvl: List::Nil,
        ind: ind_cid,
        typ: tcid,
        param: 0,
        field: 0,
        safe: true,
    };
    let zero_cid = zero.store(&mut env).unwrap();
    let succ = Const::Constructor {
        name: "succ".to_string(),
        lvl: List::Nil,
        ind: ind_cid,
        typ: tcid,
        param: 0,
        field: 1,
        safe: true,
    };
    let succ_cid = succ.store(&mut env).unwrap();

    // rule environments hold [fields..] ++ [minor_succ, minor_zero, motive]
    let rhs_zero = env.store_expr(&rc(var(1)));
    let rhs_succ = env.store_expr(&rc(app(var(1), var(0))));
    let recursor = Const::Recursor {
        lvl: List::Nil,
        ind: ind_cid,
        typ: tcid,
        params: 0,
        indices: 0,
        motives: 1,
        minors: 2,
        rules: List::Cons(
            RecRule { ctor: zero_cid, fields: 0, rhs: rhs_zero },
            Rc::new(List::Cons(
                RecRule { ctor: succ_cid, fields: 1, rhs: rhs_succ },
                Rc::new(List::Nil),
            )),
        ),
        k: false,
        safe: true,
    };
    let rec_cid = recursor.store(&mut env).unwrap();
    (env, rec_cid, zero_cid, succ_cid)
}

/// The recursor applied to a motive, the two minor premises and a major
/// premise: `R motive z s major`.
fn rec_app(rec_cid: ConstCid, major: Expr) -> Expr {
    // motive := Prop, zero case := Sort 2, succ case := λ n => Sort 1
    let motive = prop();
    let z = sort(2);
    let s = lam(prop(), sort(1));
    app(app(app(app(cref(rec_cid), motive), z), s), major)
}

#[test]
fn iota_reduces_on_zero() {
    let (env, rec_cid, zero_cid, _succ_cid) = nat_setup();
    assert_eq!(normalize(&env, rec_app(rec_cid, cref(zero_cid))), sort(2));
}

#[test]
fn iota_reduces_on_succ() {
    let (env, rec_cid, zero_cid, succ_cid) = nat_setup();
    let one = app(cref(succ_cid), cref(zero_cid));
    assert_eq!(normalize(&env, rec_app(rec_cid, one)), sort(1));
}

#[test]
fn unsaturated_recursor_stays_neutral() {
    let (env, rec_cid, _zero_cid, _succ_cid) = nat_setup();
    // only the motive applied: far from saturated, stays neutral
    let term = app(cref(rec_cid), prop());
    let mut th: Vec<Thunk> = Vec::new();
    let v = eval(&env, &mut th, &rc(term), &empty_env(), FUEL).unwrap();
    assert!(matches!(v, Value::App(Neutral::Const(c, _), _) if c == rec_cid));
}

#[test]
fn stuck_recursor_on_free_variable_stays_neutral() {
    let (env, rec_cid, _zero_cid, _succ_cid) = nat_setup();
    // the major premise is a neutral free variable: saturated but stuck
    let mut th: Vec<Thunk> = Vec::new();
    let t = result(&mut th, Value::App(Neutral::FVar(0), List::Nil));
    let een = EvalEnv { exprs: List::Cons(t, Rc::new(List::Nil)), univs: List::Nil };
    let term = rec_app(rec_cid, var(0));
    let v = eval(&env, &mut th, &rc(term), &een, FUEL).unwrap();
    match v {
        Value::App(Neutral::Const(c, _), _) => assert_eq!(c, rec_cid),
        other => panic!("expected a neutral application, got {:?}", other),
    }
}

#[test]
fn recursor_missing_rule_is_internal_error() {
    let (mut env, tcid) = env_with_type();
    let ind = Const::Inductive {
        name: "Empty".to_string(),
        lvl: List::Nil,
        typ: tcid,
        params: 0,
        indices: 0,
        ctors: List::Cons(("mk".to_string(), tcid), Rc::new(List::Nil)),
        recr: true,
        safe: true,
        refl: false,
        nest: false,
    };
    let ind_cid = ind.store(&mut env).unwrap();
    let mk = Const::Constructor {
        name: "mk".to_string(),
        lvl: List::Nil,
        ind: ind_cid,
        typ: tcid,
        param: 0,
        field: 0,
        safe: true,
    };
    let mk_cid = mk.store(&mut env).unwrap();
    let bad_rec = Const::Recursor {
        lvl: List::Nil,
        ind: ind_cid,
        typ: tcid,
        params: 0,
        indices: 0,
        motives: 1,
        minors: 0,
        rules: List::Nil,
        k: false,
        safe: true,
    };
    let rec_cid = bad_rec.store(&mut env).unwrap();
    let term = app(app(cref(rec_cid), prop()), cref(mk_cid));
    let mut th: Vec<Thunk> = Vec::new();
    let r = eval(&env, &mut th, &rc(term), &empty_env(), FUEL);
    assert_eq!(r, Err(KernelError::Internal(Violation::MalformedRecursion)));
}

#[test]
fn quotient_application_is_unimplemented() {
    let mut env = Env::new();
    let q = Const::Quotient { kind: QuotKind::Lift };
    let qcid = q.store(&mut env).unwrap();
    let mut th: Vec<Thunk> = Vec::new();
    let r = eval(&env, &mut th, &rc(app(cref(qcid), prop())), &empty_env(), FUEL);
    assert_eq!(r, Err(KernelError::Unimplemented(Feature::Quotient)));
}

#[test]
fn projection_is_unimplemented() {
    let env = Env::new();
    let mut th: Vec<Thunk> = Vec::new();
    let r = eval(&env, &mut th, &rc(Expr::Proj(0, rc(prop()))), &empty_env(), FUEL);
    assert_eq!(r, Err(KernelError::Unimplemented(Feature::Projection)));
}

#[test]
fn variable_out_of_scope_is_internal_error() {
    let env = Env::new();
    let mut th: Vec<Thunk> = Vec::new();
    let r = eval(&env, &mut th, &rc(var(0)), &empty_env(), FUEL);
    assert_eq!(r, Err(KernelError::Internal(Violation::VarOutOfScope)));
}

#[test]
fn applying_a_sort_is_internal_error() {
    let env = Env::new();
    let mut th: Vec<Thunk> = Vec::new();
    let r = eval(&env, &mut th, &rc(app(prop(), prop())), &empty_env(), FUEL);
    assert_eq!(r, Err(KernelError::Internal(Violation::ApplyNonFunction)));
}

#[test]
fn missing_constant_is_reported() {
    // a constant stored in one store is dereferenced against an empty one
    let (mut other, tcid) = env_with_type();
    let ax = Const::Axiom { name: "ax".to_string(), lvl: List::Nil, typ: tcid, safe: true };
    let cid = ax.store(&mut other).unwrap();
    let env = Env::new();
    let mut th: Vec<Thunk> = Vec::new();
    let r = eval(&env, &mut th, &rc(cref(cid)), &empty_env(), FUEL);
    assert_eq!(r, Err(KernelError::MissingConst(cid)));
}

#[test]
fn missing_body_expression_is_reported() {
    // the theorem is stored, but its body expression only lives elsewhere
    let (mut env, tcid) = env_with_type();
    let mut other = Env::new();
    let bcid = other.store_expr(&rc(sort(3)));
    let thm = Const::Theorem { name: "ghostly".to_string(), lvl: List::Nil, typ: tcid, expr: bcid };
    let cid = thm.store(&mut env).unwrap();
    let mut th: Vec<Thunk> = Vec::new();
    let r = eval(&env, &mut th, &rc(cref(cid)), &empty_env(), FUEL);
    assert_eq!(r, Err(KernelError::MissingExpr(bcid)));
}

#[test]
fn thunk_out_of_range_is_internal_error() {
    let env = Env::new();
    let mut th: Vec<Thunk> = Vec::new();
    let r = force(&env, &mut th, 5, FUEL);
    assert_eq!(r, Err(KernelError::Internal(Violation::ThunkOutOfRange)));
}

#[test]
fn general_recursion_runs_out_of_fuel() {
    // fix x => x never reaches a weak-head normal form
    let env = Env::new();
    let mut th: Vec<Thunk> = Vec::new();
    let r = eval(&env, &mut th, &rc(Expr::Fix(rc(var(0)))), &empty_env(), 50);
    assert_eq!(r, Err(KernelError::OutOfFuel));
}

#[test]
fn let_binds_lazily() {
    // let : T := bound; body — the body sees the bound term
    let env = Env::new();
    let term = Expr::Let(rc(sort(1)), rc(prop()), rc(var(0)));
    assert_eq!(normalize(&env, term), prop());
}

#[test]
fn universe_levels_reduce_inside_sorts() {
    // max and imax over concrete levels resolve fully
    let env = Env::new();
    let max_term = Expr::Sort(Rc::new(Univ::Max(
        Rc::new(Univ::Succ(Rc::new(Univ::Zero))),
        Rc::new(Univ::Zero),
    )));
    assert_eq!(normalize(&env, max_term), sort(1));
    let imax_zero = Expr::Sort(Rc::new(Univ::IMax(
        Rc::new(Univ::Succ(Rc::new(Univ::Zero))),
        Rc::new(Univ::Zero),
    )));
    assert_eq!(normalize(&env, imax_zero), sort(0));
}
