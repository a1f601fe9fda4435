//! Canonical byte encoding of payloads.
//!
//! Every stored payload encodes as a byte string whose first byte is the
//! payload's discriminant, followed by its fields in declaration order.
//! Numbers are eight big-endian bytes, flags one byte, text its UTF-8 bytes
//! behind a byte count, and a sequence frames each element behind a one byte
//! marker and ends with a zero byte. The encoding is a function of the
//! structured content alone, so equal content always yields identical bytes —
//! the ground the store's deduplication stands on.

use crate::cid::{ConstCid, Digest, ExprCid};
use crate::expression::{BinderInfo, Expr, LitType, Literal};
use crate::list::List;
use crate::universe::Univ;
use vstd::prelude::*;

verus! {

/// Eight big-endian bytes of a number.
pub open spec fn enc_u64(n: u64) -> Seq<u8> {
    seq![
        ((n / 0x100_0000_0000_0000) % 0x100) as u8,
        ((n / 0x1_0000_0000_0000) % 0x100) as u8,
        ((n / 0x100_0000_0000) % 0x100) as u8,
        ((n / 0x1_0000_0000) % 0x100) as u8,
        ((n / 0x100_0000) % 0x100) as u8,
        ((n / 0x1_0000) % 0x100) as u8,
        ((n / 0x100) % 0x100) as u8,
        (n % 0x100) as u8,
    ]
}

/// One byte for a flag.
pub open spec fn enc_bool(b: bool) -> Seq<u8> {
    seq![if b { 1u8 } else { 0u8 }]
}

/// The four words of a digest.
pub open spec fn enc_digest(d: Digest) -> Seq<u8> {
    enc_u64(d.w0) + enc_u64(d.w1) + enc_u64(d.w2) + enc_u64(d.w3)
}

/// An expression identifier: anonymous digest, then metadata digest.
pub open spec fn enc_expr_cid(c: ExprCid) -> Seq<u8> {
    enc_digest(c.anon.0) + enc_digest(c.meta.0)
}

/// A constant identifier: anonymous digest, then metadata digest.
pub open spec fn enc_const_cid(c: ConstCid) -> Seq<u8> {
    enc_digest(c.anon.0) + enc_digest(c.meta.0)
}

/// Text: the count of its UTF-8 bytes, then those bytes.
pub open spec fn enc_str(s: Seq<char>) -> Seq<u8> {
    enc_u64(vstd::utf8::encode_utf8(s).len() as u64) + vstd::utf8::encode_utf8(s)
}

/// A universe level, discriminant first.
pub open spec fn enc_univ(u: Univ) -> Seq<u8>
    decreases u,
{
    match u {
        Univ::Zero => seq![0u8],
        Univ::Succ(a) => seq![1u8] + enc_univ(*a),
        Univ::Var(i) => seq![2u8] + enc_u64(i as u64),
        Univ::Max(a, b) => seq![3u8] + enc_univ(*a) + enc_univ(*b),
        Univ::IMax(a, b) => seq![4u8] + enc_univ(*a) + enc_univ(*b),
    }
}

/// A sequence of levels: each behind a one marker, ended by a zero byte.
pub open spec fn enc_univs(l: List<Univ>) -> Seq<u8>
    decreases l,
{
    match l {
        List::Nil => seq![0u8],
        List::Cons(u, t) => seq![1u8] + enc_univ(u) + enc_univs(*t),
    }
}

/// A binder tag.
pub open spec fn enc_binder(b: BinderInfo) -> Seq<u8> {
    match b {
        BinderInfo::Default => seq![0u8],
        BinderInfo::Implicit => seq![1u8],
        BinderInfo::StrictImplicit => seq![2u8],
        BinderInfo::InstImplicit => seq![3u8],
    }
}

/// A literal, discriminant first.
pub open spec fn enc_literal(l: Literal) -> Seq<u8> {
    match l {
        Literal::Nat(n) => seq![0u8] + enc_u64(n),
        Literal::Str(s) => seq![1u8] + enc_str(s@),
    }
}

/// A literal type tag.
pub open spec fn enc_lit_type(t: LitType) -> Seq<u8> {
    match t {
        LitType::Nat => seq![0u8],
        LitType::Str => seq![1u8],
    }
}

/// A term, discriminant first, fields in declaration order. Terms carry no
/// names, so this encoding is the term's anonymous payload.
pub open spec fn enc_expr(e: Expr) -> Seq<u8>
    decreases e,
{
    match e {
        Expr::Var(i) => seq![0u8] + enc_u64(i as u64),
        Expr::Sort(u) => seq![1u8] + enc_univ(*u),
        Expr::Const(c, us) => seq![2u8] + enc_const_cid(c) + enc_univs(us),
        Expr::App(f, a) => seq![3u8] + enc_expr(*f) + enc_expr(*a),
        Expr::Lam(b, t, body) => seq![4u8] + enc_binder(b) + enc_expr(*t) + enc_expr(*body),
        Expr::Pi(b, d, c) => seq![5u8] + enc_binder(b) + enc_expr(*d) + enc_expr(*c),
        Expr::Let(t, v, body) => seq![6u8] + enc_expr(*t) + enc_expr(*v) + enc_expr(*body),
        Expr::Lit(l) => seq![7u8] + enc_literal(l),
        Expr::Lty(t) => seq![8u8] + enc_lit_type(t),
        Expr::Fix(body) => seq![9u8] + enc_expr(*body),
        Expr::Proj(i, body) => seq![10u8] + enc_u64(i) + enc_expr(*body),
    }
}

/// Appends the eight big-endian bytes of `n`.
pub fn push_u64(out: &mut Vec<u8>, n: u64)
    ensures
        final(out)@ == old(out)@ + enc_u64(n),
{
    out.push(((n / 0x100_0000_0000_0000) % 0x100) as u8);
    out.push(((n / 0x1_0000_0000_0000) % 0x100) as u8);
    out.push(((n / 0x100_0000_0000) % 0x100) as u8);
    out.push(((n / 0x1_0000_0000) % 0x100) as u8);
    out.push(((n / 0x100_0000) % 0x100) as u8);
    out.push(((n / 0x1_0000) % 0x100) as u8);
    out.push(((n / 0x100) % 0x100) as u8);
    out.push((n % 0x100) as u8);
    assert(final(out)@ =~= old(out)@ + enc_u64(n));
}

/// Appends the flag byte of `b`.
pub fn push_bool(out: &mut Vec<u8>, b: bool)
    ensures
        final(out)@ == old(out)@ + enc_bool(b),
{
    out.push(if b { 1u8 } else { 0u8 });
    assert(final(out)@ =~= old(out)@ + enc_bool(b));
}

/// Appends the four words of a digest.
pub fn push_digest(out: &mut Vec<u8>, d: &Digest)
    ensures
        final(out)@ == old(out)@ + enc_digest(*d),
{
    push_u64(out, d.w0);
    push_u64(out, d.w1);
    push_u64(out, d.w2);
    push_u64(out, d.w3);
    assert(final(out)@ =~= old(out)@ + enc_digest(*d));
}

/// Appends an expression identifier.
pub fn push_expr_cid(out: &mut Vec<u8>, c: &ExprCid)
    ensures
        final(out)@ == old(out)@ + enc_expr_cid(*c),
{
    push_digest(out, &c.anon.0);
    push_digest(out, &c.meta.0);
    assert(final(out)@ =~= old(out)@ + enc_expr_cid(*c));
}

/// Appends a constant identifier.
pub fn push_const_cid(out: &mut Vec<u8>, c: &ConstCid)
    ensures
        final(out)@ == old(out)@ + enc_const_cid(*c),
{
    push_digest(out, &c.anon.0);
    push_digest(out, &c.meta.0);
    assert(final(out)@ =~= old(out)@ + enc_const_cid(*c));
}

/// Appends the byte count and UTF-8 bytes of a string.
pub fn push_str(out: &mut Vec<u8>, s: &String)
    ensures
        final(out)@ == old(out)@ + enc_str(s@),
{
    let b: &[u8] = s.as_str().as_bytes();
    push_u64(out, b.len() as u64);
    let mut i: usize = 0;
    while i < b.len()
        invariant
            i <= b@.len(),
            out@ == old(out)@ + enc_u64(b@.len() as u64) + b@.take(i as int),
        decreases b@.len() - i,
    {
        let x = b[i];
        out.push(x);
        i = i + 1;
        assert(out@ =~= old(out)@ + enc_u64(b@.len() as u64) + b@.take(i as int));
    }
    assert(b@.take(b@.len() as int) =~= b@);
    assert(final(out)@ =~= old(out)@ + enc_str(s@));
}

/// Appends the encoding of a level.
pub fn push_univ(out: &mut Vec<u8>, u: &Univ)
    ensures
        final(out)@ == old(out)@ + enc_univ(*u),
    decreases *u,
{
    match u {
        Univ::Zero => {
            out.push(0u8);
        },
        Univ::Succ(a) => {
            out.push(1u8);
            push_univ(out, &**a);
        },
        Univ::Var(i) => {
            out.push(2u8);
            push_u64(out, *i as u64);
        },
        Univ::Max(a, b) => {
            out.push(3u8);
            push_univ(out, &**a);
            push_univ(out, &**b);
        },
        Univ::IMax(a, b) => {
            out.push(4u8);
            push_univ(out, &**a);
            push_univ(out, &**b);
        },
    }
    assert(final(out)@ =~= old(out)@ + enc_univ(*u));
}

/// Appends the encoding of a level sequence.
pub fn push_univs(out: &mut Vec<u8>, l: &List<Univ>)
    ensures
        final(out)@ == old(out)@ + enc_univs(*l),
    decreases *l,
{
    match l {
        List::Nil => {
            out.push(0u8);
        },
        List::Cons(u, t) => {
            out.push(1u8);
            push_univ(out, u);
            push_univs(out, &**t);
        },
    }
    assert(final(out)@ =~= old(out)@ + enc_univs(*l));
}

/// Appends a binder tag.
pub fn push_binder(out: &mut Vec<u8>, b: &BinderInfo)
    ensures
        final(out)@ == old(out)@ + enc_binder(*b),
{
    match b {
        BinderInfo::Default => out.push(0u8),
        BinderInfo::Implicit => out.push(1u8),
        BinderInfo::StrictImplicit => out.push(2u8),
        BinderInfo::InstImplicit => out.push(3u8),
    }
    assert(final(out)@ =~= old(out)@ + enc_binder(*b));
}

/// Appends the encoding of a literal.
pub fn push_literal(out: &mut Vec<u8>, l: &Literal)
    ensures
        final(out)@ == old(out)@ + enc_literal(*l),
{
    match l {
        Literal::Nat(n) => {
            out.push(0u8);
            push_u64(out, *n);
        },
        Literal::Str(s) => {
            out.push(1u8);
            push_str(out, &**s);
        },
    }
    assert(final(out)@ =~= old(out)@ + enc_literal(*l));
}

/// Appends a literal type tag.
pub fn push_lit_type(out: &mut Vec<u8>, t: &LitType)
    ensures
        final(out)@ == old(out)@ + enc_lit_type(*t),
{
    match t {
        LitType::Nat => out.push(0u8),
        LitType::Str => out.push(1u8),
    }
    assert(final(out)@ =~= old(out)@ + enc_lit_type(*t));
}

/// Appends the canonical encoding of a term.
pub fn push_expr(out: &mut Vec<u8>, e: &Expr)
    ensures
        final(out)@ == old(out)@ + enc_expr(*e),
    decreases *e,
{
    match e {
        Expr::Var(i) => {
            out.push(0u8);
            push_u64(out, *i as u64);
        },
        Expr::Sort(u) => {
            out.push(1u8);
            push_univ(out, &**u);
        },
        Expr::Const(c, us) => {
            out.push(2u8);
            push_const_cid(out, c);
            push_univs(out, us);
        },
        Expr::App(f, a) => {
            out.push(3u8);
            push_expr(out, &**f);
            push_expr(out, &**a);
        },
        Expr::Lam(b, t, body) => {
            out.push(4u8);
            push_binder(out, b);
            push_expr(out, &**t);
            push_expr(out, &**body);
        },
        Expr::Pi(b, d, c) => {
            out.push(5u8);
            push_binder(out, b);
            push_expr(out, &**d);
            push_expr(out, &**c);
        },
        Expr::Let(t, v, body) => {
            out.push(6u8);
            push_expr(out, &**t);
            push_expr(out, &**v);
            push_expr(out, &**body);
        },
        Expr::Lit(l) => {
            out.push(7u8);
            push_literal(out, l);
        },
        Expr::Lty(t) => {
            out.push(8u8);
            push_lit_type(out, t);
        },
        Expr::Fix(body) => {
            out.push(9u8);
            push_expr(out, &**body);
        },
        Expr::Proj(i, body) => {
            out.push(10u8);
            push_u64(out, *i);
            push_expr(out, &**body);
        },
    }
    assert(final(out)@ =~= old(out)@ + enc_expr(*e));
}

} // verus!
