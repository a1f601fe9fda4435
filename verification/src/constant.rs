//! Declarations and their content-addressed projections.
//!
//! Every constant decomposes into an anonymous payload — structural fields
//! only: counts, sub-identifiers, flags, no names — and a metadata payload
//! carrying the names. Each projection is canonically encoded and hashed; the
//! constant's identifier is the pair of the two digests. Two declarations
//! differing only in chosen names share their anonymous digest and differ in
//! their metadata digest, and reduction depends on anonymous content alone.
//!
//! Binary tag table, stable across both projections: 0 axiom, 1 theorem,
//! 2 opaque, 3 definition, 4 inductive, 5 constructor, 6 recursor, 7 quotient.

use crate::KernelError;
use crate::cid::{ConstAnonCid, ConstCid, ConstMetaCid, ExprAnonCid, ExprCid, ExprMetaCid};
use crate::cid::{digest_bytes, digest_s};
use crate::encode::{
    enc_bool, enc_digest, enc_str, enc_u64, push_bool, push_digest, push_str, push_u64,
};
use crate::environment::{Env, insert_s};
use crate::list::{List, list_len_u64, lseq};
use std::rc::Rc;
use vstd::prelude::*;

verus! {

/// How far a definition may be trusted during reduction.
#[derive(Clone, Copy, Debug, PartialEq, Eq, Structural)]
pub enum DefSafety {
    Unsafe,
    Safe,
    Partial,
}

/// Which of the primitive quotient constants a declaration is.
#[derive(Clone, Copy, Debug, PartialEq, Eq, Structural)]
pub enum QuotKind {
    Type,
    Ctor,
    Lift,
    Ind,
}

/// A recursor's reduction rule: the constructor it fires on, how many
/// constructor fields it consumes, and its right-hand side.
#[derive(Clone, Copy, Debug, PartialEq, Eq, Structural)]
pub struct RecRule {
    pub ctor: ConstCid,
    pub fields: u64,
    pub rhs: ExprCid,
}

/// A declaration.
#[derive(Clone, Debug, PartialEq)]
pub enum Const {
    /// An axiom: a name, level parameters and a type, with no body.
    Axiom { name: String, lvl: List<String>, typ: ExprCid, safe: bool },
    /// A theorem: like a safe definition, its body irrelevant to consumers.
    Theorem { name: String, lvl: List<String>, typ: ExprCid, expr: ExprCid },
    /// A definition whose body never unfolds.
    Opaque { name: String, lvl: List<String>, typ: ExprCid, expr: ExprCid, safe: bool },
    /// A definition; whether it unfolds is gated by its safety.
    Definition { name: String, lvl: List<String>, typ: ExprCid, expr: ExprCid, safe: DefSafety },
    /// An inductive type with its ordered constructors.
    Inductive {
        name: String,
        lvl: List<String>,
        typ: ExprCid,
        params: u64,
        indices: u64,
        ctors: List<(String, ExprCid)>,
        recr: bool,
        safe: bool,
        refl: bool,
        nest: bool,
    },
    /// A constructor of an inductive type.
    Constructor {
        name: String,
        lvl: List<String>,
        ind: ConstCid,
        typ: ExprCid,
        param: u64,
        field: u64,
        safe: bool,
    },
    /// The eliminator of an inductive type, one rule per constructor.
    Recursor {
        lvl: List<String>,
        ind: ConstCid,
        typ: ExprCid,
        params: u64,
        indices: u64,
        motives: u64,
        minors: u64,
        rules: List<RecRule>,
        k: bool,
        safe: bool,
    },
    /// One of the primitive quotient constants.
    Quotient { kind: QuotKind },
}

/// A rule inside an anonymous recursor payload.
#[derive(Clone, Copy, Debug, PartialEq, Eq, Structural)]
pub struct RecRuleAnon {
    pub ctor: ConstAnonCid,
    pub fields: u64,
    pub rhs: ExprAnonCid,
}

/// The anonymous projection of a declaration: structural fields only — the
/// count of level parameters, sub-identifiers of anonymous payloads, counts
/// and flags. No names.
#[derive(Clone, Debug, PartialEq)]
pub enum ConstAnon {
    Axiom { lvl: u64, typ: ExprAnonCid, safe: bool },
    Theorem { lvl: u64, typ: ExprAnonCid, expr: ExprAnonCid },
    Opaque { lvl: u64, typ: ExprAnonCid, expr: ExprAnonCid, safe: bool },
    Definition { lvl: u64, typ: ExprAnonCid, expr: ExprAnonCid, safe: DefSafety },
    Inductive {
        lvl: u64,
        typ: ExprAnonCid,
        params: u64,
        indices: u64,
        ctors: List<ExprAnonCid>,
        recr: bool,
        safe: bool,
        refl: bool,
        nest: bool,
    },
    Constructor {
        lvl: u64,
        ind: ConstAnonCid,
        typ: ExprAnonCid,
        param: u64,
        field: u64,
        safe: bool,
    },
    Recursor {
        lvl: u64,
        ind: ConstAnonCid,
        typ: ExprAnonCid,
        params: u64,
        indices: u64,
        motives: u64,
        minors: u64,
        rules: List<RecRuleAnon>,
        k: bool,
        safe: bool,
    },
    Quotient { kind: QuotKind },
}

/// The metadata projection of a declaration: the name, the level-parameter
/// names and pointers to sub-metadata identifiers.
#[derive(Clone, Debug, PartialEq)]
pub enum ConstMeta {
    Axiom { name: String, lvl: List<String>, typ: ExprMetaCid },
    Theorem { name: String, lvl: List<String>, typ: ExprMetaCid, expr: ExprMetaCid },
    Opaque { name: String, lvl: List<String>, typ: ExprMetaCid, expr: ExprMetaCid },
    Definition { name: String, lvl: List<String>, typ: ExprMetaCid, expr: ExprMetaCid },
    Inductive { name: String, lvl: List<String>, typ: ExprMetaCid, ctors: List<ExprMetaCid> },
    Constructor { name: String, lvl: List<String>, ind: ConstMetaCid, typ: ExprMetaCid },
    Recursor {
        lvl: List<String>,
        ind: ConstMetaCid,
        typ: ExprMetaCid,
        rules: List<(ConstMetaCid, ExprMetaCid)>,
    },
    Quotient,
}

/// The anonymous identifiers of a constructor list.
pub open spec fn ctors_anon_s(l: List<(String, ExprCid)>) -> List<ExprAnonCid>
    decreases l,
{
    match l {
        List::Nil => List::Nil,
        List::Cons(p, t) => List::Cons(p.1.anon, Rc::new(ctors_anon_s(*t))),
    }
}

/// The metadata identifiers of a constructor list.
pub open spec fn ctors_meta_s(l: List<(String, ExprCid)>) -> List<ExprMetaCid>
    decreases l,
{
    match l {
        List::Nil => List::Nil,
        List::Cons(p, t) => List::Cons(p.1.meta, Rc::new(ctors_meta_s(*t))),
    }
}

/// The anonymous projections of a rule list.
pub open spec fn rules_anon_s(l: List<RecRule>) -> List<RecRuleAnon>
    decreases l,
{
    match l {
        List::Nil => List::Nil,
        List::Cons(r, t) => List::Cons(
            RecRuleAnon { ctor: r.ctor.anon, fields: r.fields, rhs: r.rhs.anon },
            Rc::new(rules_anon_s(*t)),
        ),
    }
}

/// The metadata projections of a rule list.
pub open spec fn rules_meta_s(l: List<RecRule>) -> List<(ConstMetaCid, ExprMetaCid)>
    decreases l,
{
    match l {
        List::Nil => List::Nil,
        List::Cons(r, t) => List::Cons((r.ctor.meta, r.rhs.meta), Rc::new(rules_meta_s(*t))),
    }
}

/// Whether the level-parameter list is countable in a `u64` — the one machine
/// limit the canonical encoding imposes.
pub open spec fn const_lvl_fits(c: Const) -> bool {
    match c {
        Const::Axiom { lvl, .. } => lseq(lvl).len() <= u64::MAX,
        Const::Theorem { lvl, .. } => lseq(lvl).len() <= u64::MAX,
        Const::Opaque { lvl, .. } => lseq(lvl).len() <= u64::MAX,
        Const::Definition { lvl, .. } => lseq(lvl).len() <= u64::MAX,
        Const::Inductive { lvl, .. } => lseq(lvl).len() <= u64::MAX,
        Const::Constructor { lvl, .. } => lseq(lvl).len() <= u64::MAX,
        Const::Recursor { lvl, .. } => lseq(lvl).len() <= u64::MAX,
        Const::Quotient { .. } => true,
    }
}

/// The anonymous projection of a declaration. Whatever the names in `c`, the
/// result depends only on structure: equal structure gives equal projections.
pub open spec fn anon_of(c: Const) -> ConstAnon {
    match c {
        Const::Axiom { name, lvl, typ, safe } => ConstAnon::Axiom {
            lvl: lseq(lvl).len() as u64,
            typ: typ.anon,
            safe,
        },
        Const::Theorem { name, lvl, typ, expr } => ConstAnon::Theorem {
            lvl: lseq(lvl).len() as u64,
            typ: typ.anon,
            expr: expr.anon,
        },
        Const::Opaque { name, lvl, typ, expr, safe } => ConstAnon::Opaque {
            lvl: lseq(lvl).len() as u64,
            typ: typ.anon,
            expr: expr.anon,
            safe,
        },
        Const::Definition { name, lvl, typ, expr, safe } => ConstAnon::Definition {
            lvl: lseq(lvl).len() as u64,
            typ: typ.anon,
            expr: expr.anon,
            safe,
        },
        Const::Inductive { name, lvl, typ, params, indices, ctors, recr, safe, refl, nest } => {
            ConstAnon::Inductive {
                lvl: lseq(lvl).len() as u64,
                typ: typ.anon,
                params,
                indices,
                ctors: ctors_anon_s(ctors),
                recr,
                safe,
                refl,
                nest,
            }
        },
        Const::Constructor { name, lvl, ind, typ, param, field, safe } => {
            ConstAnon::Constructor {
                lvl: lseq(lvl).len() as u64,
                ind: ind.anon,
                typ: typ.anon,
                param,
                field,
                safe,
            }
        },
        Const::Recursor { lvl, ind, typ, params, indices, motives, minors, rules, k, safe } => {
            ConstAnon::Recursor {
                lvl: lseq(lvl).len() as u64,
                ind: ind.anon,
                typ: typ.anon,
                params,
                indices,
                motives,
                minors,
                rules: rules_anon_s(rules),
                k,
                safe,
            }
        },
        Const::Quotient { kind } => ConstAnon::Quotient { kind },
    }
}

/// The metadata projection of a declaration: everything display-only.
pub open spec fn meta_of(c: Const) -> ConstMeta {
    match c {
        Const::Axiom { name, lvl, typ, safe } => ConstMeta::Axiom { name, lvl, typ: typ.meta },
        Const::Theorem { name, lvl, typ, expr } => ConstMeta::Theorem {
            name,
            lvl,
            typ: typ.meta,
            expr: expr.meta,
        },
        Const::Opaque { name, lvl, typ, expr, safe } => ConstMeta::Opaque {
            name,
            lvl,
            typ: typ.meta,
            expr: expr.meta,
        },
        Const::Definition { name, lvl, typ, expr, safe } => ConstMeta::Definition {
            name,
            lvl,
            typ: typ.meta,
            expr: expr.meta,
        },
        Const::Inductive { name, lvl, typ, params, indices, ctors, recr, safe, refl, nest } => {
            ConstMeta::Inductive { name, lvl, typ: typ.meta, ctors: ctors_meta_s(ctors) }
        },
        Const::Constructor { name, lvl, ind, typ, param, field, safe } => {
            ConstMeta::Constructor { name, lvl, ind: ind.meta, typ: typ.meta }
        },
        Const::Recursor { lvl, ind, typ, params, indices, motives, minors, rules, k, safe } => {
            ConstMeta::Recursor { lvl, ind: ind.meta, typ: typ.meta, rules: rules_meta_s(rules) }
        },
        Const::Quotient { kind } => ConstMeta::Quotient,
    }
}

/// The byte of a definition safety tag.
pub open spec fn enc_def_safety(s: DefSafety) -> Seq<u8> {
    match s {
        DefSafety::Unsafe => seq![0u8],
        DefSafety::Safe => seq![1u8],
        DefSafety::Partial => seq![2u8],
    }
}

/// The byte of a quotient kind tag.
pub open spec fn enc_quot_kind(k: QuotKind) -> Seq<u8> {
    match k {
        QuotKind::Type => seq![0u8],
        QuotKind::Ctor => seq![1u8],
        QuotKind::Lift => seq![2u8],
        QuotKind::Ind => seq![3u8],
    }
}

/// A framed sequence of anonymous expression identifiers.
pub open spec fn enc_anon_cids(l: List<ExprAnonCid>) -> Seq<u8>
    decreases l,
{
    match l {
        List::Nil => seq![0u8],
        List::Cons(c, t) => seq![1u8] + enc_digest(c.0) + enc_anon_cids(*t),
    }
}

/// A framed sequence of metadata expression identifiers.
pub open spec fn enc_meta_cids(l: List<ExprMetaCid>) -> Seq<u8>
    decreases l,
{
    match l {
        List::Nil => seq![0u8],
        List::Cons(c, t) => seq![1u8] + enc_digest(c.0) + enc_meta_cids(*t),
    }
}

/// A framed sequence of names.
pub open spec fn enc_names(l: List<String>) -> Seq<u8>
    decreases l,
{
    match l {
        List::Nil => seq![0u8],
        List::Cons(s, t) => seq![1u8] + enc_str(s@) + enc_names(*t),
    }
}

/// A framed sequence of anonymous rules, each `(ctorId, fieldCount, rhsId)`.
pub open spec fn enc_rules_anon(l: List<RecRuleAnon>) -> Seq<u8>
    decreases l,
{
    match l {
        List::Nil => seq![0u8],
        List::Cons(r, t) => seq![1u8] + enc_digest(r.ctor.0) + enc_u64(r.fields) + enc_digest(
            r.rhs.0,
        ) + enc_rules_anon(*t),
    }
}

/// A framed sequence of metadata rules, each `(ctorId, rhsId)`.
pub open spec fn enc_rules_meta(l: List<(ConstMetaCid, ExprMetaCid)>) -> Seq<u8>
    decreases l,
{
    match l {
        List::Nil => seq![0u8],
        List::Cons(p, t) => seq![1u8] + enc_digest(p.0.0) + enc_digest(p.1.0) + enc_rules_meta(*t),
    }
}

/// The canonical encoding of an anonymous payload: the discriminant from the
/// tag table, then the fields in declaration order.
pub open spec fn enc_const_anon(a: ConstAnon) -> Seq<u8> {
    match a {
        ConstAnon::Axiom { lvl, typ, safe } => seq![0u8] + enc_u64(lvl) + enc_digest(typ.0)
            + enc_bool(safe),
        ConstAnon::Theorem { lvl, typ, expr } => seq![1u8] + enc_u64(lvl) + enc_digest(typ.0)
            + enc_digest(expr.0),
        ConstAnon::Opaque { lvl, typ, expr, safe } => seq![2u8] + enc_u64(lvl) + enc_digest(typ.0)
            + enc_digest(expr.0) + enc_bool(safe),
        ConstAnon::Definition { lvl, typ, expr, safe } => seq![3u8] + enc_u64(lvl) + enc_digest(
            typ.0,
        ) + enc_digest(expr.0) + enc_def_safety(safe),
        ConstAnon::Inductive { lvl, typ, params, indices, ctors, recr, safe, refl, nest } => {
            seq![4u8] + enc_u64(lvl) + enc_digest(typ.0) + enc_u64(params) + enc_u64(indices)
                + enc_anon_cids(ctors) + enc_bool(recr) + enc_bool(safe) + enc_bool(refl)
                + enc_bool(nest)
        },
        ConstAnon::Constructor { lvl, ind, typ, param, field, safe } => {
            seq![5u8] + enc_u64(lvl) + enc_digest(ind.0) + enc_digest(typ.0) + enc_u64(param)
                + enc_u64(field) + enc_bool(safe)
        },
        ConstAnon::Recursor { lvl, ind, typ, params, indices, motives, minors, rules, k, safe } => {
            seq![6u8] + enc_u64(lvl) + enc_digest(ind.0) + enc_digest(typ.0) + enc_u64(params)
                + enc_u64(indices) + enc_u64(motives) + enc_u64(minors) + enc_rules_anon(rules)
                + enc_bool(k) + enc_bool(safe)
        },
        ConstAnon::Quotient { kind } => seq![7u8] + enc_quot_kind(kind),
    }
}

/// The canonical encoding of a metadata payload.
pub open spec fn enc_const_meta(m: ConstMeta) -> Seq<u8> {
    match m {
        ConstMeta::Axiom { name, lvl, typ } => seq![0u8] + enc_str(name@) + enc_names(lvl)
            + enc_digest(typ.0),
        ConstMeta::Theorem { name, lvl, typ, expr } => seq![1u8] + enc_str(name@) + enc_names(lvl)
            + enc_digest(typ.0) + enc_digest(expr.0),
        ConstMeta::Opaque { name, lvl, typ, expr } => seq![2u8] + enc_str(name@) + enc_names(lvl)
            + enc_digest(typ.0) + enc_digest(expr.0),
        ConstMeta::Definition { name, lvl, typ, expr } => seq![3u8] + enc_str(name@) + enc_names(
            lvl,
        ) + enc_digest(typ.0) + enc_digest(expr.0),
        ConstMeta::Inductive { name, lvl, typ, ctors } => seq![4u8] + enc_str(name@) + enc_names(
            lvl,
        ) + enc_digest(typ.0) + enc_meta_cids(ctors),
        ConstMeta::Constructor { name, lvl, ind, typ } => seq![5u8] + enc_str(name@) + enc_names(
            lvl,
        ) + enc_digest(ind.0) + enc_digest(typ.0),
        ConstMeta::Recursor { lvl, ind, typ, rules } => seq![6u8] + enc_names(lvl) + enc_digest(
            ind.0,
        ) + enc_digest(typ.0) + enc_rules_meta(rules),
        ConstMeta::Quotient => seq![7u8],
    }
}

/// The identifier of an anonymous payload: the digest of its encoding.
pub open spec fn const_anon_cid_s(a: ConstAnon) -> ConstAnonCid {
    ConstAnonCid(digest_s(enc_const_anon(a)))
}

/// The identifier of a metadata payload: the digest of its encoding.
pub open spec fn const_meta_cid_s(m: ConstMeta) -> ConstMetaCid {
    ConstMetaCid(digest_s(enc_const_meta(m)))
}

/// The identifier of a declaration: the pair of its projections' digests,
/// a pure function of the declaration's content.
pub open spec fn const_cid_s(c: Const) -> ConstCid {
    ConstCid {
        anon: const_anon_cid_s(anon_of(c)),
        meta: const_meta_cid_s(meta_of(c)),
    }
}

/// A copy of a name list: one fresh head node whose tail is shared.
fn clone_names(l: &List<String>) -> (r: List<String>)
    ensures
        r == *l,
{
    match l {
        List::Nil => List::Nil,
        List::Cons(s, t) => List::Cons(s.clone(), crate::rc_clone(t)),
    }
}

/// The anonymous identifiers of a constructor list.
fn ctors_anon(l: &List<(String, ExprCid)>) -> (r: List<ExprAnonCid>)
    ensures
        r == ctors_anon_s(*l),
    decreases *l,
{
    match l {
        List::Nil => List::Nil,
        List::Cons(p, t) => List::Cons(p.1.anon, Rc::new(ctors_anon(&**t))),
    }
}

/// The metadata identifiers of a constructor list.
fn ctors_meta(l: &List<(String, ExprCid)>) -> (r: List<ExprMetaCid>)
    ensures
        r == ctors_meta_s(*l),
    decreases *l,
{
    match l {
        List::Nil => List::Nil,
        List::Cons(p, t) => List::Cons(p.1.meta, Rc::new(ctors_meta(&**t))),
    }
}

/// The anonymous projections of a rule list.
fn rules_anon(l: &List<RecRule>) -> (r: List<RecRuleAnon>)
    ensures
        r == rules_anon_s(*l),
    decreases *l,
{
    match l {
        List::Nil => List::Nil,
        List::Cons(r0, t) => List::Cons(
            RecRuleAnon { ctor: r0.ctor.anon, fields: r0.fields, rhs: r0.rhs.anon },
            Rc::new(rules_anon(&**t)),
        ),
    }
}

/// The metadata projections of a rule list.
fn rules_meta(l: &List<RecRule>) -> (r: List<(ConstMetaCid, ExprMetaCid)>)
    ensures
        r == rules_meta_s(*l),
    decreases *l,
{
    match l {
        List::Nil => List::Nil,
        List::Cons(r0, t) => List::Cons(
            (r0.ctor.meta, r0.rhs.meta),
            Rc::new(rules_meta(&**t)),
        ),
    }
}

/// Appends a framed sequence of anonymous expression identifiers.
fn push_anon_cids(out: &mut Vec<u8>, l: &List<ExprAnonCid>)
    ensures
        final(out)@ == old(out)@ + enc_anon_cids(*l),
    decreases *l,
{
    match l {
        List::Nil => {
            out.push(0u8);
        },
        List::Cons(c, t) => {
            out.push(1u8);
            push_digest(out, &c.0);
            push_anon_cids(out, &**t);
        },
    }
    assert(final(out)@ =~= old(out)@ + enc_anon_cids(*l));
}

/// Appends a framed sequence of metadata expression identifiers.
fn push_meta_cids(out: &mut Vec<u8>, l: &List<ExprMetaCid>)
    ensures
        final(out)@ == old(out)@ + enc_meta_cids(*l),
    decreases *l,
{
    match l {
        List::Nil => {
            out.push(0u8);
        },
        List::Cons(c, t) => {
            out.push(1u8);
            push_digest(out, &c.0);
            push_meta_cids(out, &**t);
        },
    }
    assert(final(out)@ =~= old(out)@ + enc_meta_cids(*l));
}

/// Appends a framed sequence of names.
fn push_names(out: &mut Vec<u8>, l: &List<String>)
    ensures
        final(out)@ == old(out)@ + enc_names(*l),
    decreases *l,
{
    match l {
        List::Nil => {
            out.push(0u8);
        },
        List::Cons(s, t) => {
            out.push(1u8);
            push_str(out, s);
            push_names(out, &**t);
        },
    }
    assert(final(out)@ =~= old(out)@ + enc_names(*l));
}

/// Appends a framed sequence of anonymous rules.
#[verifier::rlimit(50)]
fn push_rules_anon(out: &mut Vec<u8>, l: &List<RecRuleAnon>)
    ensures
        final(out)@ == old(out)@ + enc_rules_anon(*l),
    decreases *l,
{
    match l {
        List::Nil => {
            out.push(0u8);
            assert(out@ =~= old(out)@ + enc_rules_anon(*l));
        },
        List::Cons(r, t) => {
            out.push(1u8);
            push_digest(out, &r.ctor.0);
            push_u64(out, r.fields);
            push_digest(out, &r.rhs.0);
            assert(out@ =~= old(out)@ + (seq![1u8] + enc_digest(r.ctor.0) + enc_u64(r.fields)
                + enc_digest(r.rhs.0)));
            push_rules_anon(out, &**t);
            assert(out@ =~= old(out)@ + enc_rules_anon(*l));
        },
    }
}

/// Appends a framed sequence of metadata rules.
#[verifier::rlimit(50)]
fn push_rules_meta(out: &mut Vec<u8>, l: &List<(ConstMetaCid, ExprMetaCid)>)
    ensures
        final(out)@ == old(out)@ + enc_rules_meta(*l),
    decreases *l,
{
    match l {
        List::Nil => {
            out.push(0u8);
            assert(out@ =~= old(out)@ + enc_rules_meta(*l));
        },
        List::Cons(p, t) => {
            out.push(1u8);
            push_digest(out, &p.0.0);
            push_digest(out, &p.1.0);
            assert(out@ =~= old(out)@ + (seq![1u8] + enc_digest(p.0.0) + enc_digest(p.1.0)));
            push_rules_meta(out, &**t);
            assert(out@ =~= old(out)@ + enc_rules_meta(*l));
        },
    }
}

impl ConstAnon {
    /// Appends the canonical encoding of this payload.
    #[verifier::rlimit(100)]
    pub fn encode(&self, out: &mut Vec<u8>)
        ensures
            final(out)@ == old(out)@ + enc_const_anon(*self),
    {
        match self {
            ConstAnon::Axiom { lvl, typ, safe } => {
                out.push(0u8);
                push_u64(out, *lvl);
                push_digest(out, &typ.0);
                push_bool(out, *safe);
                assert(out@ =~= old(out)@ + enc_const_anon(*self));
            },
            ConstAnon::Theorem { lvl, typ, expr } => {
                out.push(1u8);
                push_u64(out, *lvl);
                push_digest(out, &typ.0);
                push_digest(out, &expr.0);
                assert(out@ =~= old(out)@ + enc_const_anon(*self));
            },
            ConstAnon::Opaque { lvl, typ, expr, safe } => {
                out.push(2u8);
                push_u64(out, *lvl);
                push_digest(out, &typ.0);
                push_digest(out, &expr.0);
                push_bool(out, *safe);
                assert(out@ =~= old(out)@ + enc_const_anon(*self));
            },
            ConstAnon::Definition { lvl, typ, expr, safe } => {
                out.push(3u8);
                push_u64(out, *lvl);
                push_digest(out, &typ.0);
                push_digest(out, &expr.0);
                match safe {
                    DefSafety::Unsafe => out.push(0u8),
                    DefSafety::Safe => out.push(1u8),
                    DefSafety::Partial => out.push(2u8),
                }
                assert(out@ =~= old(out)@ + enc_const_anon(*self));
            },
            ConstAnon::Inductive { lvl, typ, params, indices, ctors, recr, safe, refl, nest } => {
                out.push(4u8);
                push_u64(out, *lvl);
                push_digest(out, &typ.0);
                assert(out@ =~= old(out)@ + (seq![4u8] + enc_u64(*lvl) + enc_digest(typ.0)));
                push_u64(out, *params);
                push_u64(out, *indices);
                push_anon_cids(out, ctors);
                assert(out@ =~= old(out)@ + (seq![4u8] + enc_u64(*lvl) + enc_digest(typ.0)
                    + enc_u64(*params) + enc_u64(*indices) + enc_anon_cids(*ctors)));
                push_bool(out, *recr);
                push_bool(out, *safe);
                push_bool(out, *refl);
                push_bool(out, *nest);
                assert(out@ =~= old(out)@ + enc_const_anon(*self));
            },
            ConstAnon::Constructor { lvl, ind, typ, param, field, safe } => {
                out.push(5u8);
                push_u64(out, *lvl);
                push_digest(out, &ind.0);
                push_digest(out, &typ.0);
                push_u64(out, *param);
                push_u64(out, *field);
                push_bool(out, *safe);
                assert(out@ =~= old(out)@ + enc_const_anon(*self));
            },
            ConstAnon::Recursor {
                lvl,
                ind,
                typ,
                params,
                indices,
                motives,
                minors,
                rules,
                k,
                safe,
            } => {
                out.push(6u8);
                push_u64(out, *lvl);
                push_digest(out, &ind.0);
                assert(out@ =~= old(out)@ + (seq![6u8] + enc_u64(*lvl) + enc_digest(ind.0)));
                push_digest(out, &typ.0);
                push_u64(out, *params);
                push_u64(out, *indices);
                assert(out@ =~= old(out)@ + (seq![6u8] + enc_u64(*lvl) + enc_digest(ind.0)
                    + enc_digest(typ.0) + enc_u64(*params) + enc_u64(*indices)));
                push_u64(out, *motives);
                push_u64(out, *minors);
                push_rules_anon(out, rules);
                assert(out@ =~= old(out)@ + (seq![6u8] + enc_u64(*lvl) + enc_digest(ind.0)
                    + enc_digest(typ.0) + enc_u64(*params) + enc_u64(*indices)
                    + enc_u64(*motives) + enc_u64(*minors) + enc_rules_anon(*rules)));
                push_bool(out, *k);
                push_bool(out, *safe);
                assert(out@ =~= old(out)@ + enc_const_anon(*self));
            },
            ConstAnon::Quotient { kind } => {
                out.push(7u8);
                match kind {
                    QuotKind::Type => out.push(0u8),
                    QuotKind::Ctor => out.push(1u8),
                    QuotKind::Lift => out.push(2u8),
                    QuotKind::Ind => out.push(3u8),
                }
                assert(out@ =~= old(out)@ + enc_const_anon(*self));
            },
        }
    }

    /// The identifier of this payload: the digest of its canonical encoding,
    /// deterministic in the payload's content.
    pub fn cid(&self) -> (r: ConstAnonCid)
        ensures
            r == const_anon_cid_s(*self),
    {
        let mut out: Vec<u8> = Vec::new();
        self.encode(&mut out);
        assert(out@ =~= enc_const_anon(*self));
        ConstAnonCid(digest_bytes(&out))
    }

    /// Computes this payload's identifier, stores the payload under it unless
    /// already present, and returns the identifier.
    pub fn store(self, env: &mut Env) -> (r: ConstAnonCid)
        requires
            old(env).wf(),
        ensures
            final(env).wf(),
            r == const_anon_cid_s(self),
            final(env).const_anon_cache@ == insert_s(
                old(env).const_anon_cache@,
                const_anon_cid_s(self),
                self,
            ),
            final(env).expr_cache@ == old(env).expr_cache@,
            final(env).const_cache@ == old(env).const_cache@,
            final(env).const_meta_cache@ == old(env).const_meta_cache@,
    {
        let cid = self.cid();
        env.insert_const_anon(cid, self);
        cid
    }
}

impl ConstMeta {
    /// Appends the canonical encoding of this payload.
    #[verifier::rlimit(100)]
    pub fn encode(&self, out: &mut Vec<u8>)
        ensures
            final(out)@ == old(out)@ + enc_const_meta(*self),
    {
        match self {
            ConstMeta::Axiom { name, lvl, typ } => {
                out.push(0u8);
                push_str(out, name);
                push_names(out, lvl);
                push_digest(out, &typ.0);
                assert(out@ =~= old(out)@ + enc_const_meta(*self));
            },
            ConstMeta::Theorem { name, lvl, typ, expr } => {
                out.push(1u8);
                push_str(out, name);
                push_names(out, lvl);
                push_digest(out, &typ.0);
                push_digest(out, &expr.0);
                assert(out@ =~= old(out)@ + enc_const_meta(*self));
            },
            ConstMeta::Opaque { name, lvl, typ, expr } => {
                out.push(2u8);
                push_str(out, name);
                push_names(out, lvl);
                push_digest(out, &typ.0);
                push_digest(out, &expr.0);
                assert(out@ =~= old(out)@ + enc_const_meta(*self));
            },
            ConstMeta::Definition { name, lvl, typ, expr } => {
                out.push(3u8);
                push_str(out, name);
                push_names(out, lvl);
                push_digest(out, &typ.0);
                push_digest(out, &expr.0);
                assert(out@ =~= old(out)@ + enc_const_meta(*self));
            },
            ConstMeta::Inductive { name, lvl, typ, ctors } => {
                out.push(4u8);
                push_str(out, name);
                push_names(out, lvl);
                push_digest(out, &typ.0);
                push_meta_cids(out, ctors);
                assert(out@ =~= old(out)@ + enc_const_meta(*self));
            },
            ConstMeta::Constructor { name, lvl, ind, typ } => {
                out.push(5u8);
                push_str(out, name);
                push_names(out, lvl);
                push_digest(out, &ind.0);
                push_digest(out, &typ.0);
                assert(out@ =~= old(out)@ + enc_const_meta(*self));
            },
            ConstMeta::Recursor { lvl, ind, typ, rules } => {
                out.push(6u8);
                push_names(out, lvl);
                push_digest(out, &ind.0);
                push_digest(out, &typ.0);
                push_rules_meta(out, rules);
                assert(out@ =~= old(out)@ + enc_const_meta(*self));
            },
            ConstMeta::Quotient => {
                out.push(7u8);
                assert(out@ =~= old(out)@ + enc_const_meta(*self));
            },
        }
    }

    /// The identifier of this payload: the digest of its canonical encoding,
    /// deterministic in the payload's content.
    pub fn cid(&self) -> (r: ConstMetaCid)
        ensures
            r == const_meta_cid_s(*self),
    {
        let mut out: Vec<u8> = Vec::new();
        self.encode(&mut out);
        assert(out@ =~= enc_const_meta(*self));
        ConstMetaCid(digest_bytes(&out))
    }

    /// Computes this payload's identifier, stores the payload under it unless
    /// already present, and returns the identifier.
    pub fn store(self, env: &mut Env) -> (r: ConstMetaCid)
        requires
            old(env).wf(),
        ensures
            final(env).wf(),
            r == const_meta_cid_s(self),
            final(env).const_meta_cache@ == insert_s(
                old(env).const_meta_cache@,
                const_meta_cid_s(self),
                self,
            ),
            final(env).expr_cache@ == old(env).expr_cache@,
            final(env).const_cache@ == old(env).const_cache@,
            final(env).const_anon_cache@ == old(env).const_anon_cache@,
    {
        let cid = self.cid();
        env.insert_const_meta(cid, self);
        cid
    }
}

impl Const {
    /// The anonymous projection, or an encoding error when the
    /// level-parameter list cannot be counted.
    fn to_anon(&self) -> (r: Result<ConstAnon, KernelError>)
        ensures
            const_lvl_fits(*self) ==> r == Ok::<ConstAnon, KernelError>(anon_of(*self)),
            !const_lvl_fits(*self) ==> r == Err::<ConstAnon, KernelError>(KernelError::Encoding),
    {
        match self {
            Const::Axiom { name, lvl, typ, safe } => match list_len_u64(lvl) {
                Some(n) => Ok(ConstAnon::Axiom { lvl: n, typ: typ.anon, safe: *safe }),
                None => Err(KernelError::Encoding),
            },
            Const::Theorem { name, lvl, typ, expr } => match list_len_u64(lvl) {
                Some(n) => Ok(
                    ConstAnon::Theorem { lvl: n, typ: typ.anon, expr: expr.anon },
                ),
                None => Err(KernelError::Encoding),
            },
            Const::Opaque { name, lvl, typ, expr, safe } => match list_len_u64(lvl) {
                Some(n) => Ok(
                    ConstAnon::Opaque { lvl: n, typ: typ.anon, expr: expr.anon, safe: *safe },
                ),
                None => Err(KernelError::Encoding),
            },
            Const::Definition { name, lvl, typ, expr, safe } => match list_len_u64(lvl) {
                Some(n) => Ok(
                    ConstAnon::Definition { lvl: n, typ: typ.anon, expr: expr.anon, safe: *safe },
                ),
                None => Err(KernelError::Encoding),
            },
            Const::Inductive {
                name,
                lvl,
                typ,
                params,
                indices,
                ctors,
                recr,
                safe,
                refl,
                nest,
            } => match list_len_u64(lvl) {
                Some(n) => Ok(
                    ConstAnon::Inductive {
                        lvl: n,
                        typ: typ.anon,
                        params: *params,
                        indices: *indices,
                        ctors: ctors_anon(ctors),
                        recr: *recr,
                        safe: *safe,
                        refl: *refl,
                        nest: *nest,
                    },
                ),
                None => Err(KernelError::Encoding),
            },
            Const::Constructor { name, lvl, ind, typ, param, field, safe } => {
                match list_len_u64(lvl) {
                    Some(n) => Ok(
                        ConstAnon::Constructor {
                            lvl: n,
                            ind: ind.anon,
                            typ: typ.anon,
                            param: *param,
                            field: *field,
                            safe: *safe,
                        },
                    ),
                    None => Err(KernelError::Encoding),
                }
            },
            Const::Recursor {
                lvl,
                ind,
                typ,
                params,
                indices,
                motives,
                minors,
                rules,
                k,
                safe,
            } => match list_len_u64(lvl) {
                Some(n) => Ok(
                    ConstAnon::Recursor {
                        lvl: n,
                        ind: ind.anon,
                        typ: typ.anon,
                        params: *params,
                        indices: *indices,
                        motives: *motives,
                        minors: *minors,
                        rules: rules_anon(rules),
                        k: *k,
                        safe: *safe,
                    },
                ),
                None => Err(KernelError::Encoding),
            },
            Const::Quotient { kind } => Ok(ConstAnon::Quotient { kind: *kind }),
        }
    }

    /// The metadata projection.
    fn to_meta(&self) -> (r: ConstMeta)
        ensures
            r == meta_of(*self),
    {
        match self {
            Const::Axiom { name, lvl, typ, safe } => ConstMeta::Axiom {
                name: name.clone(),
                lvl: clone_names(lvl),
                typ: typ.meta,
            },
            Const::Theorem { name, lvl, typ, expr } => ConstMeta::Theorem {
                name: name.clone(),
                lvl: clone_names(lvl),
                typ: typ.meta,
                expr: expr.meta,
            },
            Const::Opaque { name, lvl, typ, expr, safe } => ConstMeta::Opaque {
                name: name.clone(),
                lvl: clone_names(lvl),
                typ: typ.meta,
                expr: expr.meta,
            },
            Const::Definition { name, lvl, typ, expr, safe } => ConstMeta::Definition {
                name: name.clone(),
                lvl: clone_names(lvl),
                typ: typ.meta,
                expr: expr.meta,
            },
            Const::Inductive { name, lvl, typ, ctors, .. } => ConstMeta::Inductive {
                name: name.clone(),
                lvl: clone_names(lvl),
                typ: typ.meta,
                ctors: ctors_meta(ctors),
            },
            Const::Constructor { name, lvl, ind, typ, .. } => ConstMeta::Constructor {
                name: name.clone(),
                lvl: clone_names(lvl),
                ind: ind.meta,
                typ: typ.meta,
            },
            Const::Recursor { lvl, ind, typ, rules, .. } => ConstMeta::Recursor {
                lvl: clone_names(lvl),
                ind: ind.meta,
                typ: typ.meta,
                rules: rules_meta(rules),
            },
            Const::Quotient { .. } => ConstMeta::Quotient,
        }
    }

    /// Stores the two projections of this declaration and returns the pair of
    /// their identifiers — the single path by which a constant becomes
    /// addressable. The identifier is a pure function of the declaration's
    /// content; only an uncountable level-parameter list is refused, and then
    /// the store is left untouched.
    pub fn cid(&self, env: &mut Env) -> (r: Result<ConstCid, KernelError>)
        requires
            old(env).wf(),
        ensures
            final(env).wf(),
            const_lvl_fits(*self) ==> {
                &&& r == Ok::<ConstCid, KernelError>(const_cid_s(*self))
                &&& final(env).const_anon_cache@ == insert_s(
                    old(env).const_anon_cache@,
                    const_anon_cid_s(anon_of(*self)),
                    anon_of(*self),
                )
                &&& final(env).const_meta_cache@ == insert_s(
                    old(env).const_meta_cache@,
                    const_meta_cid_s(meta_of(*self)),
                    meta_of(*self),
                )
            },
            !const_lvl_fits(*self) ==> {
                &&& r == Err::<ConstCid, KernelError>(KernelError::Encoding)
                &&& final(env).const_anon_cache@ == old(env).const_anon_cache@
                &&& final(env).const_meta_cache@ == old(env).const_meta_cache@
            },
            final(env).expr_cache@ == old(env).expr_cache@,
            final(env).const_cache@ == old(env).const_cache@,
    {
        let anon = match self.to_anon() {
            Ok(a) => a,
            Err(e) => {
                return Err(e);
            },
        };
        let meta = self.to_meta();
        let anon_cid = anon.store(env);
        let meta_cid = meta.store(env);
        Ok(ConstCid { anon: anon_cid, meta: meta_cid })
    }

    /// Stores the projections and the declaration itself, and returns the
    /// declaration's identifier. Storing equal content twice returns the same
    /// identifier and leaves a single entry per payload.
    pub fn store(self, env: &mut Env) -> (r: Result<ConstCid, KernelError>)
        requires
            old(env).wf(),
        ensures
            final(env).wf(),
            const_lvl_fits(self) ==> {
                &&& r == Ok::<ConstCid, KernelError>(const_cid_s(self))
                &&& final(env).const_anon_cache@ == insert_s(
                    old(env).const_anon_cache@,
                    const_anon_cid_s(anon_of(self)),
                    anon_of(self),
                )
                &&& final(env).const_meta_cache@ == insert_s(
                    old(env).const_meta_cache@,
                    const_meta_cid_s(meta_of(self)),
                    meta_of(self),
                )
                &&& final(env).const_cache@ == insert_s(
                    old(env).const_cache@,
                    const_cid_s(self),
                    self,
                )
            },
            !const_lvl_fits(self) ==> {
                &&& r == Err::<ConstCid, KernelError>(KernelError::Encoding)
                &&& final(env).const_anon_cache@ == old(env).const_anon_cache@
                &&& final(env).const_meta_cache@ == old(env).const_meta_cache@
                &&& final(env).const_cache@ == old(env).const_cache@
            },
            final(env).expr_cache@ == old(env).expr_cache@,
    {
        match self.cid(env) {
            Ok(cid) => {
                env.insert_const_cache(cid, self);
                Ok(cid)
            },
            Err(e) => Err(e),
        }
    }
}

} // verus!
