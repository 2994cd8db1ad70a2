//! Building blocks composed of other recursive arrays: a concatenation of
//! two, and a repetition of one type.
use vstd::prelude::*;

use core::marker::PhantomData;

use crate::capability::{LengthMismatch, RecursiveArray};
use crate::native::vec_from_array;

verus! {

/// A recursive array holding the elements of an `A` followed by those of a `B`.
#[derive(Debug)]
pub struct RecursiveArrayConcatenation<T, A: RecursiveArray<T>, B: RecursiveArray<T>> {
    items: Vec<T>,
    phantom: PhantomData<(A, B)>,
}

impl<T, A: RecursiveArray<T>, B: RecursiveArray<T>> RecursiveArrayConcatenation<T, A, B> {
    #[verifier::type_invariant]
    spec fn holds_both(&self) -> bool {
        self.items@.len() == A::spec_length() + B::spec_length()
    }

    /// Creates a recursive array with the elements of `a` followed by those of `b`.
    pub fn new(a: A, b: B) -> (r: Self)
        ensures
            r.elements() == a.elements() + b.elements(),
    {
        let mut items = a.into_vec();
        let mut rest = b.into_vec();
        items.append(&mut rest);
        RecursiveArrayConcatenation { items, phantom: PhantomData }
    }
}

impl<T, A: RecursiveArray<T>, B: RecursiveArray<T>> RecursiveArray<T> for RecursiveArrayConcatenation<
    T,
    A,
    B,
> {
    open spec fn spec_length() -> nat {
        A::spec_length() + B::spec_length()
    }

    closed spec fn elements(&self) -> Seq<T> {
        self.items@
    }

    fn length() -> (r: Option<usize>) {
        match (A::length(), B::length()) {
            (Some(a), Some(b)) => a.checked_add(b),
            _ => None,
        }
    }

    fn as_slice(&self) -> (r: &[T]) {
        proof {
            use_type_invariant(self);
        }
        self.items.as_slice()
    }

    fn set(&mut self, index: usize, item: T) {
        proof {
            use_type_invariant(&*self);
        }
        self.items[index] = item;
    }

    fn into_vec(self) -> (r: Vec<T>) {
        proof {
            use_type_invariant(&self);
        }
        self.items
    }

    fn from_vec(items: Vec<T>) -> (r: Result<Self, LengthMismatch>) {
        let length = Self::length();
        match length {
            Some(n) if n == items.len() => Ok(RecursiveArrayConcatenation { items, phantom: PhantomData }),
            _ => Err(LengthMismatch { expected: length, found: items.len() }),
        }
    }
}

impl<T: Clone, A: RecursiveArray<T>, B: RecursiveArray<T>> Clone for RecursiveArrayConcatenation<
    T,
    A,
    B,
> {
    fn clone(&self) -> (r: Self) {
        proof {
            use_type_invariant(self);
        }
        RecursiveArrayConcatenation { items: self.items.clone(), phantom: PhantomData }
    }
}

/// The elements of each of `values` in turn, left to right.
pub open spec fn flatten<T, A: RecursiveArray<T>>(values: Seq<A>) -> Seq<T>
    decreases values.len(),
{
    if values.len() == 0 {
        Seq::empty()
    } else {
        flatten(values.drop_last()) + values.last().elements()
    }
}

/// A recursive array holding `N` values of the recursive array type `A`, one
/// after the other.
#[derive(Debug)]
pub struct RecursiveArrayMultiplier<const N: usize, T, A: RecursiveArray<T>> {
    items: Vec<T>,
    phantom: PhantomData<A>,
}

impl<const N: usize, T, A: RecursiveArray<T>> RecursiveArrayMultiplier<N, T, A> {
    #[verifier::type_invariant]
    spec fn holds_all(&self) -> bool {
        self.items@.len() == A::spec_length() * N
    }

    /// Creates a recursive array with the elements of each of `values` in turn.
    pub fn new(values: [A; N]) -> (r: Self)
        ensures
            r.elements() == flatten(values@),
    {
        let ghost all = values@;
        let values = vec_from_array(values);
        let mut items: Vec<T> = Vec::new();
        for value in it: values.into_iter()
            invariant
                it.seq() == all,
                items@ == flatten(all.take(it.index() as int)),
                items@.len() == A::spec_length() * it.index(),
        {
            let ghost i = it.index();
            let mut part = value.into_vec();
            items.append(&mut part);
            proof {
                assert(all.take(i + 1).drop_last() =~= all.take(i as int));
                assert(A::spec_length() * (i + 1) == A::spec_length() * i + A::spec_length())
                    by (nonlinear_arith);
            }
        }
        proof {
            assert(all.take(N as int) =~= all);
        }
        RecursiveArrayMultiplier { items, phantom: PhantomData }
    }
}

impl<const N: usize, T, A: RecursiveArray<T>> RecursiveArray<T> for RecursiveArrayMultiplier<
    N,
    T,
    A,
> {
    open spec fn spec_length() -> nat {
        A::spec_length() * (N as nat)
    }

    closed spec fn elements(&self) -> Seq<T> {
        self.items@
    }

    fn length() -> (r: Option<usize>) {
        match A::length() {
            Some(a) => a.checked_mul(N),
            None => {
                if N == 0 {
                    Some(0)
                } else {
                    proof {
                        assert(A::spec_length() * N >= A::spec_length()) by (nonlinear_arith)
                            requires
                                N >= 1,
                        ;
                    }
                    None
                }
            },
        }
    }

    fn as_slice(&self) -> (r: &[T]) {
        proof {
            use_type_invariant(self);
        }
        self.items.as_slice()
    }

    fn set(&mut self, index: usize, item: T) {
        proof {
            use_type_invariant(&*self);
        }
        self.items[index] = item;
    }

    fn into_vec(self) -> (r: Vec<T>) {
        proof {
            use_type_invariant(&self);
        }
        self.items
    }

    fn from_vec(items: Vec<T>) -> (r: Result<Self, LengthMismatch>) {
        let length = Self::length();
        match length {
            Some(n) if n == items.len() => Ok(RecursiveArrayMultiplier { items, phantom: PhantomData }),
            _ => Err(LengthMismatch { expected: length, found: items.len() }),
        }
    }
}

impl<const N: usize, T: Clone, A: RecursiveArray<T>> Clone for RecursiveArrayMultiplier<N, T, A> {
    fn clone(&self) -> (r: Self) {
        proof {
            use_type_invariant(self);
        }
        RecursiveArrayMultiplier { items: self.items.clone(), phantom: PhantomData }
    }
}

} // verus!
