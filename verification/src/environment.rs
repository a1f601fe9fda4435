//! The content store.
//!
//! A process-wide cache from content identifiers to decoded payloads, for the
//! constant payload families (whole constants, anonymous projections, metadata
//! projections) and for expressions. Insertion is insert-or-return-existing:
//! the store never holds two entries for one identifier, which together with
//! the canonical encoding makes storing idempotent.

use crate::cid::{ConstAnonCid, ConstCid, ConstMetaCid, ExprAnonCid, ExprCid, ExprMetaCid};
use crate::constant::{Const, ConstAnon, ConstMeta};
use crate::encode::{enc_expr, push_expr};
use crate::expression::Expr;
use crate::cid::{digest_bytes, digest_s};
use std::rc::Rc;
use vstd::prelude::*;

verus! {

/// The value stored under key `k`, earliest entry first.
pub open spec fn assoc<K, V>(s: Seq<(K, V)>, k: K) -> Option<V>
    decreases s.len(),
{
    if s.len() == 0 {
        None
    } else if s[0].0 == k {
        Some(s[0].1)
    } else {
        assoc(s.drop_first(), k)
    }
}

/// No two entries share a key.
pub open spec fn unique_keys<K, V>(s: Seq<(K, V)>) -> bool {
    forall|i: int, j: int| 0 <= i < j < s.len() ==> (#[trigger] s[i]).0 != (#[trigger] s[j]).0
}

/// The cache after an insert-or-return-existing of `(k, v)`.
pub open spec fn insert_s<K, V>(s: Seq<(K, V)>, k: K, v: V) -> Seq<(K, V)> {
    if assoc(s, k) is Some {
        s
    } else {
        s.push((k, v))
    }
}

/// A key that `assoc` misses occurs nowhere.
pub proof fn lemma_assoc_none<K, V>(s: Seq<(K, V)>, k: K)
    requires
        assoc(s, k) is None,
    ensures
        forall|i: int| 0 <= i < s.len() ==> (#[trigger] s[i]).0 != k,
    decreases s.len(),
{
    if s.len() > 0 {
        lemma_assoc_none(s.drop_first(), k);
        assert(forall|i: int|
            1 <= i < s.len() ==> (#[trigger] s[i]).0 == s.drop_first()[i - 1].0);
    }
}

/// What `assoc` yields on a cache extended by one entry.
pub proof fn lemma_assoc_push<K, V>(s: Seq<(K, V)>, p: (K, V), k: K)
    ensures
        assoc(s.push(p), k) == if assoc(s, k) is Some {
            assoc(s, k)
        } else if p.0 == k {
            Some(p.1)
        } else {
            None
        },
    decreases s.len(),
{
    let sp = s.push(p);
    assert(sp.len() == s.len() + 1);
    if s.len() == 0 {
        assert(sp[0] == p);
        assert(sp.drop_first() =~= Seq::<(K, V)>::empty());
        assert(assoc(sp.drop_first(), k) is None);
        assert(assoc(sp, k) == if p.0 == k {
            Some(p.1)
        } else {
            None
        });
        assert(assoc(s, k) is None);
    } else {
        assert(sp[0] == s[0]);
        lemma_assoc_push(s.drop_first(), p, k);
        assert(sp.drop_first() =~= s.drop_first().push(p));
        if sp[0].0 == k {
            assert(assoc(sp, k) == Some(s[0].1));
            assert(assoc(s, k) == Some(s[0].1));
        } else {
            assert(assoc(sp, k) == assoc(s.drop_first().push(p), k));
            assert(assoc(s, k) == assoc(s.drop_first(), k));
        }
    }
}

/// Insert-or-return-existing keeps keys unique and makes the key found
/// afterwards; inserting what is already present changes nothing, so a second
/// insertion of the same content is a no-op.
pub proof fn lemma_insert<K, V>(s: Seq<(K, V)>, k: K, v: V)
    requires
        unique_keys(s),
    ensures
        unique_keys(insert_s(s, k, v)),
        assoc(insert_s(s, k, v), k) == Some(
            if assoc(s, k) is Some {
                assoc(s, k)->Some_0
            } else {
                v
            },
        ),
        insert_s(insert_s(s, k, v), k, v) == insert_s(s, k, v),
{
    lemma_assoc_push(s, (k, v), k);
    if assoc(s, k) is None {
        lemma_assoc_none(s, k);
        assert forall|i: int, j: int|
            0 <= i < j < s.push((k, v)).len() implies (#[trigger] s.push((k, v))[i]).0 != (
        #[trigger] s.push((k, v))[j]).0 by {
            if j < s.len() {
                assert(s.push((k, v))[i] == s[i] && s.push((k, v))[j] == s[j]);
            } else {
                assert(s.push((k, v))[i] == s[i] && s.push((k, v))[j] == (k, v));
            }
        }
    }
}

/// The content store.
pub struct Env {
    /// Expressions, by their identifier.
    pub expr_cache: Vec<(ExprCid, Rc<Expr>)>,
    /// Whole constants, by their identifier.
    pub const_cache: Vec<(ConstCid, Const)>,
    /// Anonymous constant payloads, by their digest.
    pub const_anon_cache: Vec<(ConstAnonCid, ConstAnon)>,
    /// Metadata constant payloads, by their digest.
    pub const_meta_cache: Vec<(ConstMetaCid, ConstMeta)>,
}

/// The identifier of a term: the digest of its canonical encoding, paired
/// with the digest of its metadata payload. Terms carry no display names, so
/// their metadata payload is empty.
pub open spec fn expr_cid_s(e: Expr) -> ExprCid {
    ExprCid {
        anon: ExprAnonCid(digest_s(enc_expr(e))),
        meta: ExprMetaCid(digest_s(Seq::<u8>::empty())),
    }
}

impl Env {
    /// Every cache maps each identifier to at most one payload.
    pub open spec fn wf(self) -> bool {
        unique_keys(self.expr_cache@) && unique_keys(self.const_cache@) && unique_keys(
            self.const_anon_cache@,
        ) && unique_keys(self.const_meta_cache@)
    }

    /// An empty store.
    pub fn new() -> (r: Env)
        ensures
            r.wf(),
            r.expr_cache@ =~= Seq::<(ExprCid, Rc<Expr>)>::empty(),
            r.const_cache@ =~= Seq::<(ConstCid, Const)>::empty(),
            r.const_anon_cache@ =~= Seq::<(ConstAnonCid, ConstAnon)>::empty(),
            r.const_meta_cache@ =~= Seq::<(ConstMetaCid, ConstMeta)>::empty(),
    {
        Env {
            expr_cache: Vec::new(),
            const_cache: Vec::new(),
            const_anon_cache: Vec::new(),
            const_meta_cache: Vec::new(),
        }
    }

    /// The stored expression under `c`, or absence.
    pub fn get_expr(&self, c: &ExprCid) -> (r: Option<Rc<Expr>>)
        ensures
            r == assoc(self.expr_cache@, *c),
    {
        let s = &self.expr_cache;
        let mut i: usize = 0;
        assert(s@.skip(0) =~= s@);
        while i < s.len()
            invariant
                s@ == self.expr_cache@,
                i <= s@.len(),
                assoc(s@, *c) == assoc(s@.skip(i as int), *c),
            decreases s@.len() - i,
        {
            proof {
                assert(s@.skip(i as int).drop_first() =~= s@.skip(i as int + 1));
                assert(s@.skip(i as int)[0] == s@[i as int]);
            }
            if s[i].0 == *c {
                proof {
                    assert(assoc(s@.skip(i as int), *c) == Some(s@[i as int].1));
                }
                return Some(crate::rc_clone(&s[i].1));
            }
            i = i + 1;
        }
        proof {
            assert(s@.skip(s@.len() as int).len() == 0);
        }
        None
    }

    /// The stored constant under `c`, or absence.
    pub fn get_const(&self, c: &ConstCid) -> (r: Option<&Const>)
        ensures
            match r {
                Some(x) => assoc(self.const_cache@, *c) == Some(*x),
                None => assoc(self.const_cache@, *c) is None,
            },
    {
        let s = &self.const_cache;
        let mut i: usize = 0;
        assert(s@.skip(0) =~= s@);
        while i < s.len()
            invariant
                s@ == self.const_cache@,
                i <= s@.len(),
                assoc(s@, *c) == assoc(s@.skip(i as int), *c),
            decreases s@.len() - i,
        {
            proof {
                assert(s@.skip(i as int).drop_first() =~= s@.skip(i as int + 1));
                assert(s@.skip(i as int)[0] == s@[i as int]);
            }
            if s[i].0 == *c {
                proof {
                    assert(assoc(s@.skip(i as int), *c) == Some(s@[i as int].1));
                }
                return Some(&s[i].1);
            }
            i = i + 1;
        }
        proof {
            assert(s@.skip(s@.len() as int).len() == 0);
        }
        None
    }

    /// Whether an anonymous constant payload is stored under `c`.
    fn has_const_anon(&self, c: &ConstAnonCid) -> (r: bool)
        ensures
            r == (assoc(self.const_anon_cache@, *c) is Some),
    {
        let s = &self.const_anon_cache;
        let mut i: usize = 0;
        assert(s@.skip(0) =~= s@);
        while i < s.len()
            invariant
                s@ == self.const_anon_cache@,
                i <= s@.len(),
                assoc(s@, *c) == assoc(s@.skip(i as int), *c),
            decreases s@.len() - i,
        {
            proof {
                assert(s@.skip(i as int).drop_first() =~= s@.skip(i as int + 1));
                assert(s@.skip(i as int)[0] == s@[i as int]);
            }
            if s[i].0 == *c {
                proof {
                    assert(assoc(s@.skip(i as int), *c) == Some(s@[i as int].1));
                }
                return true;
            }
            i = i + 1;
        }
        proof {
            assert(s@.skip(s@.len() as int).len() == 0);
        }
        false
    }

    /// Whether a metadata constant payload is stored under `c`.
    fn has_const_meta(&self, c: &ConstMetaCid) -> (r: bool)
        ensures
            r == (assoc(self.const_meta_cache@, *c) is Some),
    {
        let s = &self.const_meta_cache;
        let mut i: usize = 0;
        assert(s@.skip(0) =~= s@);
        while i < s.len()
            invariant
                s@ == self.const_meta_cache@,
                i <= s@.len(),
                assoc(s@, *c) == assoc(s@.skip(i as int), *c),
            decreases s@.len() - i,
        {
            proof {
                assert(s@.skip(i as int).drop_first() =~= s@.skip(i as int + 1));
                assert(s@.skip(i as int)[0] == s@[i as int]);
            }
            if s[i].0 == *c {
                proof {
                    assert(assoc(s@.skip(i as int), *c) == Some(s@[i as int].1));
                }
                return true;
            }
            i = i + 1;
        }
        proof {
            assert(s@.skip(s@.len() as int).len() == 0);
        }
        false
    }

    /// Whether a constant is stored under `c`.
    fn has_const(&self, c: &ConstCid) -> (r: bool)
        ensures
            r == (assoc(self.const_cache@, *c) is Some),
    {
        match self.get_const(c) {
            Some(_) => true,
            None => false,
        }
    }

    /// Whether an expression is stored under `c`.
    fn has_expr(&self, c: &ExprCid) -> (r: bool)
        ensures
            r == (assoc(self.expr_cache@, *c) is Some),
    {
        match self.get_expr(c) {
            Some(_) => true,
            None => false,
        }
    }

    /// Inserts an anonymous constant payload unless its identifier is taken.
    pub fn insert_const_anon(&mut self, c: ConstAnonCid, a: ConstAnon)
        requires
            old(self).wf(),
        ensures
            final(self).wf(),
            final(self).const_anon_cache@ == insert_s(old(self).const_anon_cache@, c, a),
            final(self).expr_cache@ == old(self).expr_cache@,
            final(self).const_cache@ == old(self).const_cache@,
            final(self).const_meta_cache@ == old(self).const_meta_cache@,
    {
        proof {
            lemma_insert(self.const_anon_cache@, c, a);
        }
        if !self.has_const_anon(&c) {
            self.const_anon_cache.push((c, a));
        }
    }

    /// Inserts a metadata constant payload unless its identifier is taken.
    pub fn insert_const_meta(&mut self, c: ConstMetaCid, m: ConstMeta)
        requires
            old(self).wf(),
        ensures
            final(self).wf(),
            final(self).const_meta_cache@ == insert_s(old(self).const_meta_cache@, c, m),
            final(self).expr_cache@ == old(self).expr_cache@,
            final(self).const_cache@ == old(self).const_cache@,
            final(self).const_anon_cache@ == old(self).const_anon_cache@,
    {
        proof {
            lemma_insert(self.const_meta_cache@, c, m);
        }
        if !self.has_const_meta(&c) {
            self.const_meta_cache.push((c, m));
        }
    }

    /// Inserts a whole constant unless its identifier is taken.
    pub fn insert_const_cache(&mut self, c: ConstCid, k: Const)
        requires
            old(self).wf(),
        ensures
            final(self).wf(),
            final(self).const_cache@ == insert_s(old(self).const_cache@, c, k),
            final(self).expr_cache@ == old(self).expr_cache@,
            final(self).const_anon_cache@ == old(self).const_anon_cache@,
            final(self).const_meta_cache@ == old(self).const_meta_cache@,
    {
        proof {
            lemma_insert(self.const_cache@, c, k);
        }
        if !self.has_const(&c) {
            self.const_cache.push((c, k));
        }
    }

    /// Computes the identifier of a term, stores the term under it unless
    /// already present, and returns the identifier: the single path by which
    /// an expression becomes addressable.
    pub fn store_expr(&mut self, e: &Rc<Expr>) -> (r: ExprCid)
        requires
            old(self).wf(),
        ensures
            final(self).wf(),
            r == expr_cid_s(**e),
            final(self).expr_cache@ == insert_s(old(self).expr_cache@, expr_cid_s(**e), *e),
            final(self).const_cache@ == old(self).const_cache@,
            final(self).const_anon_cache@ == old(self).const_anon_cache@,
            final(self).const_meta_cache@ == old(self).const_meta_cache@,
    {
        let mut bytes: Vec<u8> = Vec::new();
        push_expr(&mut bytes, &**e);
        assert(bytes@ =~= enc_expr(**e));
        let empty: Vec<u8> = Vec::new();
        assert(empty@ =~= Seq::<u8>::empty());
        let c = ExprCid {
            anon: ExprAnonCid(digest_bytes(&bytes)),
            meta: ExprMetaCid(digest_bytes(&empty)),
        };
        proof {
            lemma_insert(self.expr_cache@, c, *e);
        }
        if !self.has_expr(&c) {
            self.expr_cache.push((c, crate::rc_clone(e)));
        }
        c
    }
}

} // verus!
