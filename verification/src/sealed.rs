use vstd::prelude::*;

verus! {

/// Marker trait that restricts the replacement extension to `Result`.
///
/// This module is private, so no other crate can implement the marker;
/// the extension trait therefore exists only on `Result` values.
pub trait Sealed {}

impl<T, E> Sealed for Result<T, E> {}

} // verus!
