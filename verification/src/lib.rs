//! Trusted evaluation kernel of a content-addressed checker for a
//! dependently-typed declaration language.
//!
//! The crate has two tightly coupled halves: the content-addressed constant
//! model (`cid`, `encode`, `constant`, `environment`), which splits every
//! declaration into a structurally canonical anonymous payload and a
//! name-carrying metadata payload, each hashed into a content identifier and
//! kept in a deduplicating store; and the lazy normalization evaluator
//! (`evaluation`, `readback`), a call-by-need interpreter over de
//! Bruijn-indexed terms that produces weak-head-normal values and implements
//! beta, delta and iota reduction together with closure-based read-back.

use vstd::prelude::*;

pub mod cid;
pub mod constant;
pub mod encode;
pub mod environment;
pub mod evaluation;
pub mod expression;
pub mod laws;
pub mod list;
pub mod pretty;
pub mod readback;
pub mod universe;

verus! {

/// Relies on `std::rc::Rc::clone`: cloning a reference-counted pointer yields
/// a pointer to the very same value.
#[verifier::external_body]
pub(crate) fn rc_clone<T: ?Sized>(rc: &std::rc::Rc<T>) -> (res: std::rc::Rc<T>)
    ensures
        res == *rc,
{
    std::rc::Rc::clone(rc)
}

/// The reduction feature that an evaluation ran into but that the kernel does
/// not model.
#[derive(Clone, Copy, Debug, PartialEq, Eq, Structural)]
pub enum Feature {
    /// Evaluation of a projection expression.
    Projection,
    /// Reduction of an applied quotient constant.
    Quotient,
}

/// The internal consistency violation that evaluation observed: a shape the
/// surrounding type checker is expected to have ruled out.
#[derive(Clone, Copy, Debug, PartialEq, Eq, Structural)]
pub enum Violation {
    /// A bound variable index with no matching entry in the environment.
    VarOutOfScope,
    /// A thunk reference outside the thunk arena.
    ThunkOutOfRange,
    /// An application whose callee is neither a closure nor a neutral value.
    ApplyNonFunction,
    /// A recursor applied to a constructor it has no rule for, or a rule
    /// asking for more fields than the constructor application carries.
    MalformedRecursion,
    /// A payload too large to be counted or addressed.
    SizeOverflow,
}

/// Errors the kernel reports instead of panicking.
///
/// Storage and evaluation never abort the process: every condition the
/// surrounding type checker should have ruled out, every unfinished reduction
/// feature and every failed store lookup is reported through this type.
#[derive(Clone, Copy, Debug, PartialEq, Eq, Structural)]
pub enum KernelError {
    /// A payload could not be canonically serialized.
    Encoding,
    /// A constant identifier was dereferenced against the store and was
    /// absent: the store is incomplete or corrupted.
    MissingConst(crate::cid::ConstCid),
    /// An expression identifier was dereferenced against the store and was
    /// absent: the store is incomplete or corrupted.
    MissingExpr(crate::cid::ExprCid),
    /// Delta-reduction of the named definition, marked unsafe, was attempted
    /// in a context that requires evaluation.
    UnsafeUnfold(crate::cid::ConstCid),
    /// The named reduction feature is not modeled yet.
    Unimplemented(Feature),
    /// A shape the type checker should have ruled out.
    Internal(Violation),
    /// The step budget given to the evaluator ran out before a weak-head
    /// normal form was reached.
    OutOfFuel,
}

} // verus!
