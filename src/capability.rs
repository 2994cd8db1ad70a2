//! The capability shared by every building block, and the operations that
//! every block gets from it.
use vstd::prelude::*;

use crate::composite::RecursiveArrayConcatenation;
use crate::leaves::{EmptyRecursiveArray, RecursiveArraySingleItem};
use crate::native::{array_from_vec, vec_from_array};

verus! {

/// A length that is known to the type but may not fit in `usize`.
pub open spec fn fitting_length(length: nat) -> Option<usize> {
    if length <= usize::MAX {
        Some(length as usize)
    } else {
        None
    }
}

/// Reports that a number of elements offered or asked for differs from the
/// length that a recursive array type fixes.
#[derive(Debug, Clone, Copy, PartialEq, Eq, Structural)]
pub struct LengthMismatch {
    /// The length of the recursive array type; `None` where it exceeds `usize`.
    pub expected: Option<usize>,
    /// The number of elements offered (an array, a slice) or asked for.
    pub found: usize,
}

/// The error that a recursive array type of `length` elements reports for
/// `found` elements.
pub open spec fn mismatch(length: nat, found: usize) -> LengthMismatch {
    LengthMismatch { expected: fitting_length(length), found }
}

/// What converting a value with `elements`, of a type of `length` elements,
/// into `[T; N]` gives: an array with those elements when `N` is that length,
/// and otherwise the error that names both lengths.
pub open spec fn converted<T, const N: usize>(
    length: nat,
    elements: Seq<T>,
    r: Result<[T; N], LengthMismatch>,
) -> bool {
    match r {
        Ok(a) => N == length && a@ == elements,
        Err(e) => N != length && e == mismatch(length, N),
    }
}

/// A type whose values are sequences of exactly `spec_length()` elements of
/// `T`, in a fixed left-to-right order, that can be viewed as one slice.
///
/// Every implementation proves that its values hold exactly that many
/// elements, and that its slice view shows them in that order; nothing about
/// an implementation is taken on trust.
pub trait RecursiveArray<T>: Sized {
    /// The number of elements of every value of this type.
    spec fn spec_length() -> nat;

    /// The elements of this value, left to right.
    spec fn elements(&self) -> Seq<T>;

    /// The number of elements of every value of this type, or `None` where it
    /// does not fit in `usize` (no value of such a type can be built).
    fn length() -> (r: Option<usize>)
        ensures
            r == fitting_length(Self::spec_length()),
    ;

    /// The elements as a slice, without copying them.
    fn as_slice(&self) -> (r: &[T])
        ensures
            r@ == self.elements(),
            r@.len() == Self::spec_length(),
    ;

    /// Replaces the element at `index`.
    fn set(&mut self, index: usize, item: T)
        requires
            index < Self::spec_length(),
        ensures
            final(self).elements() == old(self).elements().update(index as int, item),
    ;

    /// Moves the elements, left to right, into a vector.
    fn into_vec(self) -> (r: Vec<T>)
        ensures
            r@ == self.elements(),
            r@.len() == Self::spec_length(),
    ;

    /// Builds a value from exactly `spec_length()` elements.
    fn from_vec(items: Vec<T>) -> (r: Result<Self, LengthMismatch>)
        ensures
            match r {
                Ok(a) => items@.len() == Self::spec_length() && a.elements() == items@,
                Err(e) => items@.len() != Self::spec_length() && e == mismatch(
                    Self::spec_length(),
                    items@.len() as usize,
                ),
            },
    ;

    /// Returns the number of elements of this value.
    fn len(&self) -> (r: usize)
        ensures
            r == Self::spec_length(),
            r == self.elements().len(),
    {
        self.as_slice().len()
    }

    /// Converts a native array into a recursive array; fails unless `N` is
    /// the length of this type.
    fn from_array<const N: usize>(array: [T; N]) -> (r: Result<Self, LengthMismatch>)
        ensures
            match r {
                Ok(a) => array@.len() == Self::spec_length() && a.elements() == array@,
                Err(e) => array@.len() != Self::spec_length() && e == mismatch(
                    Self::spec_length(),
                    N,
                ),
            },
    {
        Self::from_vec(vec_from_array(array))
    }

    /// Converts this value into a native array; fails unless `N` is the
    /// length of this type.
    fn to_array<const N: usize>(self) -> (r: Result<[T; N], LengthMismatch>)
        ensures
            converted(Self::spec_length(), self.elements(), r),
    {
        let length = self.len();
        match array_from_vec(self.into_vec()) {
            Ok(array) => Ok(array),
            Err(_) => Err(LengthMismatch { expected: Some(length), found: N }),
        }
    }

    /// Copies the elements of a slice into a recursive array; fails unless
    /// the slice holds exactly as many elements as this type.
    fn from_slice(slice: &[T]) -> (r: Result<Self, LengthMismatch>)
        where
            T: Copy,
        ensures
            match r {
                Ok(a) => slice@.len() == Self::spec_length() && a.elements() == slice@,
                Err(e) => slice@.len() != Self::spec_length() && e == mismatch(
                    Self::spec_length(),
                    slice@.len() as usize,
                ),
            },
    {
        Self::from_vec(vstd::slice::slice_to_vec(slice))
    }

}

/// The ways of composing a recursive array into a longer one, given to every
/// recursive array.
pub trait RecursiveArrayCompose<T>: RecursiveArray<T> {
    /// Returns an empty recursive array.
    fn empty() -> (r: EmptyRecursiveArray)
        ensures
            <EmptyRecursiveArray as RecursiveArray<T>>::elements(&r) == Seq::<T>::empty(),
    {
        EmptyRecursiveArray
    }


    /// Appends an element to the back of this array.
    fn push_back(self, item: T) -> (r: RecursiveArrayConcatenation<
        T,
        Self,
        RecursiveArraySingleItem<T>,
    >)
        ensures
            r.elements() == self.elements().push(item),
    {
        RecursiveArrayConcatenation::new(self, RecursiveArraySingleItem::new(item))
    }

    /// Appends a recursive array to the back of this array.
    fn append_back<R: RecursiveArray<T>>(self, array: R) -> (r: RecursiveArrayConcatenation<
        T,
        Self,
        R,
    >)
        ensures
            r.elements() == self.elements() + array.elements(),
    {
        RecursiveArrayConcatenation::new(self, array)
    }

    /// Prepends an element to the front of this array.
    fn push_front(self, item: T) -> (r: RecursiveArrayConcatenation<
        T,
        RecursiveArraySingleItem<T>,
        Self,
    >)
        ensures
            r.elements() == seq![item] + self.elements(),
    {
        RecursiveArrayConcatenation::new(RecursiveArraySingleItem::new(item), self)
    }

    /// Prepends a recursive array to the front of this array.
    fn append_front<R: RecursiveArray<T>>(self, array: R) -> (r: RecursiveArrayConcatenation<
        T,
        R,
        Self,
    >)
        ensures
            r.elements() == array.elements() + self.elements(),
    {
        RecursiveArrayConcatenation::new(array, self)
    }
}

impl<T, S: RecursiveArray<T>> RecursiveArrayCompose<T> for S {
}

} // verus!
