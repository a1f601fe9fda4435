//! Content addressing: identifier determinism, the anonymous/metadata split,
//! store idempotence and the rendering interface.

use std::rc::Rc;
use yatima_kernel::KernelError;
use yatima_kernel::cid::ExprCid;
use yatima_kernel::constant::{Const, ConstAnon, ConstMeta, DefSafety, QuotKind};
use yatima_kernel::environment::Env;
use yatima_kernel::expression::{BinderInfo, Expr};
use yatima_kernel::list::List;
use yatima_kernel::universe::Univ;

fn sort(n: u64) -> Expr {
    let mut u = Univ::Zero;
    for _ in 0..n {
        u = Univ::Succ(Rc::new(u));
    }
    Expr::Sort(Rc::new(u))
}

fn env_with_type() -> (Env, ExprCid) {
    let mut env = Env::new();
    let tcid = env.store_expr(&Rc::new(sort(1)));
    (env, tcid)
}

fn postulate(name: &str, lvl: List<String>, typ: ExprCid) -> Const {
    Const::Axiom { name: name.to_string(), lvl, typ, safe: true }
}

#[test]
fn cid_same_anon_different_meta_for_renamed_constant() {
    // two declarations equal in structure, differing only in name: one
    // anonymous identifier, two metadata identifiers, two full identifiers
    let (mut env, tcid) = env_with_type();
    let id1 = postulate("alpha", List::Nil, tcid).store(&mut env).unwrap();
    let id2 = postulate("beta", List::Nil, tcid).store(&mut env).unwrap();
    assert_eq!(id1.anon, id2.anon);
    assert_ne!(id1.meta, id2.meta);
    assert_ne!(id1, id2);
}

#[test]
fn cid_same_anon_for_renamed_level_params() {
    // level-parameter lists of equal length but different names are
    // structurally equal
    let (mut env, tcid) = env_with_type();
    let l1 = List::Cons("u".to_string(), Rc::new(List::Nil));
    let l2 = List::Cons("v".to_string(), Rc::new(List::Nil));
    let id1 = postulate("c", l1, tcid).store(&mut env).unwrap();
    let id2 = postulate("c", l2, tcid).store(&mut env).unwrap();
    assert_eq!(id1.anon, id2.anon);
    assert_ne!(id1.meta, id2.meta);
}

#[test]
fn cid_differs_for_different_structure() {
    let (mut env, tcid) = env_with_type();
    let ocid = env.store_expr(&Rc::new(sort(2)));
    let id1 = postulate("c", List::Nil, tcid).store(&mut env).unwrap();
    let id2 = postulate("c", List::Nil, ocid).store(&mut env).unwrap();
    assert_ne!(id1.anon, id2.anon);
    assert_eq!(id1.meta, id2.meta);
    assert_ne!(id1, id2);
}

#[test]
fn store_is_idempotent() {
    // storing equal content twice returns the same identifier and leaves
    // exactly one entry per payload family
    let (mut env, tcid) = env_with_type();
    let before_anon = env.const_anon_cache.len();
    let before_meta = env.const_meta_cache.len();
    let before_const = env.const_cache.len();
    let id1 = postulate("again", List::Nil, tcid).store(&mut env).unwrap();
    let id2 = postulate("again", List::Nil, tcid).store(&mut env).unwrap();
    assert_eq!(id1, id2);
    assert_eq!(env.const_anon_cache.len(), before_anon + 1);
    assert_eq!(env.const_meta_cache.len(), before_meta + 1);
    assert_eq!(env.const_cache.len(), before_const + 1);
    assert!(env.get_const(&id1).is_some());
}

#[test]
fn store_expr_is_idempotent() {
    let mut env = Env::new();
    let e = Rc::new(Expr::Pi(BinderInfo::Default, Rc::new(sort(0)), Rc::new(Expr::Var(0))));
    let c1 = env.store_expr(&e);
    let c2 = env.store_expr(&e);
    assert_eq!(c1, c2);
    assert_eq!(env.expr_cache.len(), 1);
    assert!(env.get_expr(&c1).is_some());
}

#[test]
fn payload_cids_are_deterministic() {
    // equal payloads, built twice, digest identically
    let (mut env, tcid) = env_with_type();
    let a1 = ConstAnon::Axiom { lvl: 2, typ: tcid.anon, safe: false };
    let a2 = ConstAnon::Axiom { lvl: 2, typ: tcid.anon, safe: false };
    assert_eq!(a1.cid(), a2.cid());
    let a3 = ConstAnon::Axiom { lvl: 3, typ: tcid.anon, safe: false };
    assert_ne!(a1.cid(), a3.cid());
    let m1 = ConstMeta::Quotient;
    let m2 = ConstMeta::Quotient;
    assert_eq!(m1.cid(), m2.cid());
    let _ = env.store_expr(&Rc::new(sort(3)));
}

#[test]
fn distinct_variants_have_distinct_identifiers() {
    // distinct variants produce distinct anonymous identifiers
    let (mut env, tcid) = env_with_type();
    let q = Const::Quotient { kind: QuotKind::Type }.store(&mut env).unwrap();
    let a = postulate("q", List::Nil, tcid).store(&mut env).unwrap();
    assert_ne!(q.anon, a.anon);
    let q2 = Const::Quotient { kind: QuotKind::Ind }.store(&mut env).unwrap();
    assert_ne!(q.anon, q2.anon);
}

#[test]
fn pretty_renders_present_postulate() {
    let (mut env, tcid) = env_with_type();
    let c = postulate("my_postulate", List::Cons("u".to_string(), Rc::new(List::Nil)), tcid);
    let _ = c.clone().store(&mut env).unwrap();
    let text = c.pretty(false, &env).unwrap();
    assert!(text.contains("my_postulate"));
    assert!(text.contains("my_postulate"));
}

#[test]
fn pretty_reports_missing_dependency() {
    // the declaration's type is stored only in another store
    let (mut other, tcid) = env_with_type();
    let _ = &mut other;
    let env = Env::new();
    let c = postulate("lost", List::Nil, tcid);
    assert_eq!(c.pretty(false, &env), Err(KernelError::MissingExpr(tcid)));
}

#[test]
fn pretty_placeholder_arms() {
    let (mut env, tcid) = env_with_type();
    let bcid = env.store_expr(&Rc::new(sort(0)));
    let d = Const::Definition {
        name: "quiet".to_string(),
        lvl: List::Nil,
        typ: tcid,
        expr: bcid,
        safe: DefSafety::Safe,
    };
    assert_eq!(d.pretty(false, &env).unwrap(), "".to_string());
    let q = Const::Quotient { kind: QuotKind::Ctor };
    assert_eq!(q.pretty(true, &env).unwrap(), "".to_string());
}

#[test]
fn pretty_constructor_is_its_name() {
    let (mut env, tcid) = env_with_type();
    let ind = Const::Inductive {
        name: "Unit".to_string(),
        lvl: List::Nil,
        typ: tcid,
        params: 0,
        indices: 0,
        ctors: List::Cons(("mk".to_string(), tcid), Rc::new(List::Nil)),
        recr: false,
        safe: true,
        refl: false,
        nest: false,
    };
    let ind_cid = ind.clone().store(&mut env).unwrap();
    let mk = Const::Constructor {
        name: "mk".to_string(),
        lvl: List::Nil,
        ind: ind_cid,
        typ: tcid,
        param: 0,
        field: 0,
        safe: true,
    };
    assert_eq!(mk.pretty(false, &env).unwrap(), "mk".to_string());
    // and the inductive itself renders with its constructor lines
    let text = ind.pretty(false, &env).unwrap();
    assert!(text.contains("inductive"));
    assert!(text.contains("| mk"));
}

#[test]
fn pretty_recursor_checks_its_parent() {
    let (mut env, tcid) = env_with_type();
    let ind = Const::Inductive {
        name: "Unit".to_string(),
        lvl: List::Nil,
        typ: tcid,
        params: 1,
        indices: 0,
        ctors: List::Nil,
        recr: false,
        safe: true,
        refl: false,
        nest: false,
    };
    let ind_cid = ind.store(&mut env).unwrap();
    let good = Const::Recursor {
        lvl: List::Nil,
        ind: ind_cid,
        typ: tcid,
        params: 1,
        indices: 0,
        motives: 1,
        minors: 0,
        rules: List::Nil,
        k: false,
        safe: true,
    };
    assert_eq!(good.pretty(false, &env).unwrap(), "".to_string());
    let mismatched = Const::Recursor {
        lvl: List::Nil,
        ind: ind_cid,
        typ: tcid,
        params: 2,
        indices: 0,
        motives: 1,
        minors: 0,
        rules: List::Nil,
        k: false,
        safe: true,
    };
    assert!(mismatched.pretty(false, &env).is_err());
}
