//! _Sometimes you want to throw errors away._
//!
//! This crate does exactly one thing: it adds a `replace_err` method to the
//! `Result` type that throws away the current error, if there is one, and
//! replaces it with a new value. The success payload, if there is one, is
//! passed through unchanged.
//!
//! Most of the time you do _not_ want to do this. Usually you want to wrap
//! prior errors with new layers to add context. However, there are some
//! cases where the underlying error really is not needed, and `replace_err`
//! expresses that directly.
//!
//! The operation is total: it cannot fail and it never panics.

use vstd::prelude::*;

mod sealed;

verus! {

/// What replacing the failure payload of `r` with `f` returns: the success
/// payload unchanged if `r` is a success, else a failure carrying exactly `f`.
pub open spec fn replaced<T, E, F>(r: Result<T, E>, f: F) -> Result<T, F> {
    match r {
        Ok(v) => Ok(v),
        Err(_) => Err(f),
    }
}

/// Extend `Result` with a `replace_err` method.
///
/// The trait is sealed: only `Result` implements it, so the method cannot
/// be attached to unrelated types.
pub trait ReplaceErr: crate::sealed::Sealed + Sized {
    /// The type of the success payload.
    type Success;

    /// Whether this value is a success.
    spec fn is_success(self) -> bool;

    /// The success payload, where there is one.
    spec fn success_value(self) -> Self::Success;

    /// Replace the existing failure payload, if any, with a new value.
    ///
    /// A success comes back carrying the very same payload; a failure comes
    /// back carrying exactly `f`, whatever the discarded payload was.
    fn replace_err<F>(self, f: F) -> (r: Result<Self::Success, F>)
        ensures
            self.is_success() ==> r == Ok::<Self::Success, F>(self.success_value()),
            !self.is_success() ==> r == Err::<Self::Success, F>(f),
    ;
}

impl<T, E> ReplaceErr for Result<T, E> {
    type Success = T;

    open spec fn is_success(self) -> bool {
        self is Ok
    }

    open spec fn success_value(self) -> T {
        self->Ok_0
    }

    fn replace_err<F>(self, f: F) -> (r: Result<T, F>) {
        replace_err(self, f)
    }
}

/// Free-function form of the same operation, for call sites that prefer
/// `replace_err(r, f)` over `r.replace_err(f)`.
pub fn replace_err<T, E, F>(r: Result<T, E>, f: F) -> (out: Result<T, F>)
    ensures
        out == replaced(r, f),
{
    match r {
        Ok(v) => Ok(v),
        Err(_) => Err(f),
    }
}

/// A success keeps its payload: for every success payload `v` and every
/// replacement value `f`, replacement returns the same success, carrying
/// the identical payload.
pub proof fn lemma_replace_err_on_success<T, E, F>(v: T, f: F)
    ensures
        replaced(Ok::<T, E>(v), f) == Ok::<T, F>(v),
{
}

/// A failure is replaced outright: for every failure payload `e` and every
/// replacement value `f`, replacement returns a failure carrying exactly
/// `f`, whatever `e` was.
pub proof fn lemma_replace_err_on_failure<T, E, F>(e: E, f: F)
    ensures
        replaced(Err::<T, E>(e), f) == Err::<T, F>(f),
{
}

/// Repeated replacement keeps only the most recent value: replacing the
/// failure payload `e1` with `f1` and then with `f2` gives a failure
/// carrying exactly `f2`.
pub proof fn lemma_replace_err_last_wins<T, E, F1, F2>(e1: E, f1: F1, f2: F2)
    ensures
        replaced(replaced(Err::<T, E>(e1), f1), f2) == Err::<T, F2>(f2),
{
}

} // verus!
