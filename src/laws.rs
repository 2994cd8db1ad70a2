//! Facts that relate several operations of the library.
use vstd::prelude::*;

use crate::capability::{converted, mismatch, LengthMismatch, RecursiveArray};
use crate::composite::flatten;

verus! {

/// `s` written out `n` times, one copy after the other.
pub open spec fn repeat<T>(s: Seq<T>, n: nat) -> Seq<T>
    decreases n,
{
    if n == 0 {
        Seq::empty()
    } else {
        repeat(s, (n - 1) as nat) + s
    }
}

/// Converting a value of `N` elements into a native array and back keeps
/// every element in place: `to_array::<N>` succeeds, `from_array` accepts
/// the array it gave, and the value built has the original's elements.
pub proof fn lemma_array_round_trip<T, S: RecursiveArray<T>, const N: usize>(
    v: S,
    there: Result<[T; N], LengthMismatch>,
    back: Result<S, LengthMismatch>,
)
    requires
        N == S::spec_length(),
        converted(S::spec_length(), v.elements(), there),
        there matches Ok(array) ==> match back {
            Ok(a) => array@.len() == S::spec_length() && a.elements() == array@,
            Err(e) => array@.len() != S::spec_length() && e == mismatch(S::spec_length(), N),
        },
    ensures
        there is Ok,
        back is Ok,
        back->Ok_0.elements() == v.elements(),
{
}

/// A repetition of values that all hold the elements `s` holds `s` repeated
/// once per value, in order.
pub proof fn lemma_repetition<T, A: RecursiveArray<T>>(values: Seq<A>, s: Seq<T>)
    requires
        forall|i: int| 0 <= i < values.len() ==> (#[trigger] values[i]).elements() == s,
    ensures
        flatten(values) == repeat(s, values.len()),
    decreases values.len(),
{
    if values.len() > 0 {
        let rest = values.drop_last();
        assert forall|i: int| 0 <= i < rest.len() implies (#[trigger] rest[i]).elements() == s by {
            assert(rest[i] == values[i]);
        }
        lemma_repetition(rest, s);
        assert(values.last() == values[values.len() - 1]);
    }
}

} // verus!
