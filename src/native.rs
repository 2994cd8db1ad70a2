//! Moves between native arrays and vectors.
use vstd::prelude::*;

verus! {

/// Relies on `impl From<[T; N]> for Vec<T>`: the array's items are moved into
/// a new vector, in order.
#[verifier::external_body]
pub(crate) fn vec_from_array<T, const N: usize>(array: [T; N]) -> (r: Vec<T>)
    ensures
        r@ == array@,
{
    Vec::from(array)
}

/// Relies on `impl TryFrom<Vec<T>> for [T; N]`: the vector's items become the
/// array when there are exactly `N` of them; otherwise the vector comes back
/// unchanged.
#[verifier::external_body]
pub(crate) fn array_from_vec<T, const N: usize>(items: Vec<T>) -> (r: Result<[T; N], Vec<T>>)
    ensures
        match r {
            Ok(array) => items@.len() == N && array@ == items@,
            Err(back) => items@.len() != N && back@ == items@,
        },
{
    <[T; N]>::try_from(items)
}

} // verus!
