//! The constrained-value wrapper and the policy it is checked against.
use core::marker::PhantomData;
use vstd::prelude::*;

verus! {

/// A payload of type `F` that the policy `C` accepted when it was stored.
///
/// The constructors and [`Floco::mutate`] evaluate `C`'s predicate before
/// they store a payload. [`Floco::mutate_unchecked`] does not, and neither
/// does writing the public fields directly (`Floco(v, PhantomData)`,
/// `f.0 = v`): a caller who does either vouches for the payload.
#[derive(Debug)]
pub struct Floco<F: Copy, C: Constrained<F>>(pub F, pub PhantomData<C>);

/// What constructing from `value` under the policy `C` holds: `value` itself,
/// untouched, when the predicate accepts it, and nothing otherwise.
pub open spec fn constructed<F: Copy, C: Constrained<F>>(value: F) -> Option<F> {
    if C::valid(value) {
        Some(value)
    } else {
        None
    }
}

/// The payload that a construction result holds, if it holds one.
///
/// A rejection holds the policy's own error for the rejected value; the
/// constructors state that separately.
pub open spec fn held<F: Copy, C: Constrained<F>>(r: Result<Floco<F, C>, C::Error>) -> Option<F> {
    match r {
        Ok(f) => Some(f.0),
        Err(_) => None,
    }
}

impl<F: Copy, C: Constrained<F>> Floco<F, C> {
    /// The payload satisfies the policy. Construction and checked mutation
    /// keep this; only an unchecked mutation can break it.
    pub open spec fn within_policy(self) -> bool {
        C::valid(self.0)
    }

    /// Extracts the payload.
    pub fn get(&self) -> (r: F)
        ensures
            r == self.0,
    {
        self.0
    }

    /// Replaces the payload with `new_val` if the policy accepts it; otherwise
    /// keeps the old payload and reports `new_val`.
    pub fn mutate(&mut self, new_val: F) -> (r: Result<(), C::Error>)
        ensures
            r is Ok <==> C::valid(new_val),
            r matches Err(e) ==> e == C::error_of(new_val),
            final(self).0 == (if C::valid(new_val) {
                new_val
            } else {
                old(self).0
            }),
            old(self).within_policy() ==> final(self).within_policy(),
    {
        if C::is_valid(new_val) {
            self.0 = new_val;
            Ok(())
        } else {
            Err(C::emit_error(new_val))
        }
    }

    /// Stores `new_val` without consulting the policy. The caller vouches
    /// for it.
    pub fn mutate_unchecked(&mut self, new_val: F)
        ensures
            final(self).0 == new_val,
    {
        self.0 = new_val;
    }

    /// Fallible constructor, the same as [`Constrained::try_new`] of `C`.
    pub fn try_new(value: F) -> (r: Result<Self, C::Error>)
        ensures
            held(r) == constructed::<F, C>(value),
            r matches Err(e) ==> e == C::error_of(value),
    {
        C::try_new(value)
    }

    /// Conversion from a bare payload; fails exactly as [`Floco::try_new`].
    pub fn try_from(value: F) -> (r: Result<Self, C::Error>)
        ensures
            held(r) == constructed::<F, C>(value),
            r matches Err(e) ==> e == C::error_of(value),
    {
        C::try_new(value)
    }
}

impl<F: Copy, C: Constrained<F>> Default for Floco<F, C> {
    /// Wraps the policy's default payload, which the policy guarantees valid.
    fn default() -> (r: Self)
        ensures
            r.0 == C::default_value(),
            r.within_policy(),
    {
        Floco(C::get_default(), PhantomData)
    }
}

/// A validation policy over payloads of type `F`: a predicate, the error that
/// reports a rejected value, and a default payload.
///
/// The predicate must be a pure function of the payload. An implementation
/// outside Verus writes `valid`, `error_of` and `default_value` as plain
/// functions that agree with `is_valid`, `emit_error` and `get_default`.
pub trait Constrained<F: Copy>: Sized {
    /// What a rejected value is reported as.
    type Error: core::fmt::Display;

    /// The predicate, as a mathematical function of the payload.
    spec fn valid(value: F) -> bool;

    /// The error that reports the rejected `value`, as a mathematical value.
    spec fn error_of(value: F) -> Self::Error;

    /// The default payload, as a mathematical value.
    spec fn default_value() -> F;

    /// Decides whether `value` may be held.
    fn is_valid(value: F) -> (r: bool)
        ensures
            r == Self::valid(value),
    ;

    /// Builds the error that reports the rejected `value`.
    fn emit_error(value: F) -> (r: Self::Error)
        ensures
            r == Self::error_of(value),
    ;

    /// The default payload. It must satisfy the policy's own predicate.
    fn get_default() -> (r: F)
        ensures
            r == Self::default_value(),
            Self::valid(r),
    ;

    /// Fallible constructor: wraps `value` unchanged when the predicate holds,
    /// and reports it through [`Constrained::emit_error`] otherwise.
    fn try_new(value: F) -> (r: Result<Floco<F, Self>, Self::Error>)
        ensures
            r is Ok <==> Self::valid(value),
            r matches Ok(f) ==> f.0 == value,
            r matches Err(e) ==> e == Self::error_of(value),
    {
        if Self::is_valid(value) {
            Ok(Floco(value, PhantomData))
        } else {
            Err(Self::emit_error(value))
        }
    }
}

/// Round trip: a value within its policy travels as its bare payload, and
/// building a value again from that payload under the same policy succeeds
/// and holds the same payload.
pub proof fn lemma_round_trip<F: Copy, C: Constrained<F>>(f: Floco<F, C>)
    requires
        f.within_policy(),
    ensures
        constructed::<F, C>(f.0) == Some(f.0),
{
}

} // verus!
