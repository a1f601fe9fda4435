//! Persistent singly-linked lists with structurally shared tails.
//!
//! Evaluation environments and argument spines grow at the front and are
//! captured by many closures at once, so they are kept as immutable lists
//! whose tails are shared through reference-counted pointers.

use std::rc::Rc;
use vstd::prelude::*;

verus! {

/// An immutable list; consing onto the front shares the old list as the tail.
#[derive(Clone, Debug, PartialEq)]
pub enum List<T> {
    Nil,
    Cons(T, Rc<List<T>>),
}

/// The mathematical sequence a list holds, front first.
pub open spec fn lseq<T>(l: List<T>) -> Seq<T>
    decreases l,
{
    match l {
        List::Nil => Seq::empty(),
        List::Cons(x, t) => seq![x] + lseq(*t),
    }
}

/// The first `n` elements of `l`, or `None` when `l` is shorter than that.
pub open spec fn ltake_s<T>(l: List<T>, n: nat) -> Option<List<T>>
    decreases l,
{
    if n == 0 {
        Some(List::Nil)
    } else {
        match l {
            List::Nil => None,
            List::Cons(x, t) => match ltake_s(*t, (n - 1) as nat) {
                Some(r) => Some(List::Cons(x, Rc::new(r))),
                None => None,
            },
        }
    }
}

/// `l` without its first `n` elements; the whole suffix once `n` exceeds the
/// length.
pub open spec fn lskip_s<T>(l: List<T>, n: nat) -> List<T>
    decreases l,
{
    if n == 0 {
        l
    } else {
        match l {
            List::Nil => List::Nil,
            List::Cons(_, t) => lskip_s(*t, (n - 1) as nat),
        }
    }
}

/// `a` followed by `b`.
pub open spec fn lappend_s<T>(a: List<T>, b: List<T>) -> List<T>
    decreases a,
{
    match a {
        List::Nil => b,
        List::Cons(x, t) => List::Cons(x, Rc::new(lappend_s(*t, b))),
    }
}

/// A copy of a list: one fresh head node whose tail is shared.
pub fn clone_list<T: Copy>(l: &List<T>) -> (r: List<T>)
    ensures
        r == *l,
{
    match l {
        List::Nil => List::Nil,
        List::Cons(x, t) => List::Cons(*x, crate::rc_clone(t)),
    }
}

/// A new list with `x` in front of `l`.
pub fn cons<T: Copy>(x: T, l: &List<T>) -> (r: List<T>)
    ensures
        r == List::Cons(x, Rc::new(*l)),
{
    List::Cons(x, Rc::new(clone_list(l)))
}

/// The element at position `i`, front being position zero.
pub fn list_get<T: Copy>(l: &List<T>, i: usize) -> (r: Option<T>)
    ensures
        match r {
            Some(x) => i < lseq(*l).len() && x == lseq(*l)[i as int],
            None => i >= lseq(*l).len(),
        },
    decreases *l,
{
    match l {
        List::Nil => None,
        List::Cons(x, t) => {
            if i == 0 {
                Some(*x)
            } else {
                list_get(&**t, i - 1)
            }
        },
    }
}

/// Whether the list holds exactly `k` elements, without counting past `k`.
pub fn len_is<T>(l: &List<T>, k: u128) -> (r: bool)
    ensures
        r == (lseq(*l).len() == k),
    decreases *l,
{
    match l {
        List::Nil => k == 0,
        List::Cons(_, t) => k > 0 && len_is(&**t, k - 1),
    }
}

/// The length of the list, or `None` when it does not fit in a `u64`.
pub fn list_len_u64<T>(l: &List<T>) -> (r: Option<u64>)
    ensures
        match r {
            Some(n) => n == lseq(*l).len(),
            None => lseq(*l).len() > u64::MAX,
        },
    decreases *l,
{
    match l {
        List::Nil => Some(0),
        List::Cons(_, t) => match list_len_u64(&**t) {
            Some(n) => if n == u64::MAX {
                None
            } else {
                Some(n + 1)
            },
            None => None,
        },
    }
}

/// The first `n` elements, or `None` when the list is shorter than that.
pub fn list_take<T: Copy>(l: &List<T>, n: u64) -> (r: Option<List<T>>)
    ensures
        r == ltake_s(*l, n as nat),
    decreases *l,
{
    if n == 0 {
        Some(List::Nil)
    } else {
        match l {
            List::Nil => None,
            List::Cons(x, t) => match list_take(&**t, n - 1) {
                Some(rest) => Some(List::Cons(*x, Rc::new(rest))),
                None => None,
            },
        }
    }
}

/// The list without its first `n` elements.
pub fn list_skip<T: Copy>(l: &List<T>, n: u64) -> (r: List<T>)
    ensures
        r == lskip_s(*l, n as nat),
    decreases *l,
{
    if n == 0 {
        clone_list(l)
    } else {
        match l {
            List::Nil => List::Nil,
            List::Cons(_, t) => list_skip(&**t, n - 1),
        }
    }
}

/// `a` followed by `b`.
pub fn list_append<T: Copy>(a: &List<T>, b: &List<T>) -> (r: List<T>)
    ensures
        r == lappend_s(*a, *b),
    decreases *a,
{
    match a {
        List::Nil => clone_list(b),
        List::Cons(x, t) => List::Cons(*x, Rc::new(list_append(&**t, b))),
    }
}

} // verus!
