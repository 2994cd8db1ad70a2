//! Building blocks that hold their elements inline: the empty array, a
//! single item, and a native array.
use vstd::prelude::*;

use crate::capability::{LengthMismatch, RecursiveArray};
use crate::native::{array_from_vec, vec_from_array};

verus! {

/// A recursive array with no elements.
#[derive(Debug, Clone, Copy, Hash, PartialEq, Eq, Default)]
pub struct EmptyRecursiveArray;

impl<T> RecursiveArray<T> for EmptyRecursiveArray {
    open spec fn spec_length() -> nat {
        0
    }

    open spec fn elements(&self) -> Seq<T> {
        Seq::empty()
    }

    fn length() -> (r: Option<usize>) {
        Some(0)
    }

    fn as_slice(&self) -> (r: &[T]) {
        &[]
    }

    fn set(&mut self, index: usize, item: T) {
    }

    fn into_vec(self) -> (r: Vec<T>) {
        Vec::new()
    }

    fn from_vec(items: Vec<T>) -> (r: Result<Self, LengthMismatch>) {
        if items.len() == 0 {
            Ok(EmptyRecursiveArray)
        } else {
            Err(LengthMismatch { expected: Some(0), found: items.len() })
        }
    }
}

/// A recursive array with a single item.
#[derive(Debug, Clone, Hash, PartialEq, Eq, Default)]
pub struct RecursiveArraySingleItem<T> {
    item: [T; 1],
}

impl<T> RecursiveArraySingleItem<T> {
    /// Creates a recursive array that holds `item` alone.
    pub fn new(item: T) -> (r: Self)
        ensures
            r.elements() == seq![item],
    {
        RecursiveArraySingleItem { item: [item] }
    }
}

impl<T> RecursiveArray<T> for RecursiveArraySingleItem<T> {
    open spec fn spec_length() -> nat {
        1
    }

    closed spec fn elements(&self) -> Seq<T> {
        self.item@
    }

    fn length() -> (r: Option<usize>) {
        Some(1)
    }

    fn as_slice(&self) -> (r: &[T]) {
        self.item.as_slice()
    }

    fn set(&mut self, index: usize, item: T) {
        self.item[index] = item;
    }

    fn into_vec(self) -> (r: Vec<T>) {
        vec_from_array(self.item)
    }

    fn from_vec(items: Vec<T>) -> (r: Result<Self, LengthMismatch>) {
        match array_from_vec::<T, 1>(items) {
            Ok(item) => Ok(RecursiveArraySingleItem { item }),
            Err(back) => Err(LengthMismatch { expected: Some(1), found: back.len() }),
        }
    }
}

/// A recursive array that wraps a native array of `N` elements.
#[derive(Debug, Clone, Hash, PartialEq, Eq)]
pub struct RecursiveArrayArrayWrapper<const N: usize, T> {
    array: [T; N],
}

impl<const N: usize, T> RecursiveArrayArrayWrapper<N, T> {
    /// Creates a recursive array that holds the elements of `array`.
    pub fn new(array: [T; N]) -> (r: Self)
        ensures
            r.elements() == array@,
    {
        RecursiveArrayArrayWrapper { array }
    }
}

impl<const N: usize, T> RecursiveArray<T> for RecursiveArrayArrayWrapper<N, T> {
    open spec fn spec_length() -> nat {
        N as nat
    }

    closed spec fn elements(&self) -> Seq<T> {
        self.array@
    }

    fn length() -> (r: Option<usize>) {
        Some(N)
    }

    fn as_slice(&self) -> (r: &[T]) {
        self.array.as_slice()
    }

    fn set(&mut self, index: usize, item: T) {
        self.array[index] = item;
    }

    fn into_vec(self) -> (r: Vec<T>) {
        vec_from_array(self.array)
    }

    fn from_vec(items: Vec<T>) -> (r: Result<Self, LengthMismatch>) {
        match array_from_vec::<T, N>(items) {
            Ok(array) => Ok(RecursiveArrayArrayWrapper { array }),
            Err(back) => Err(LengthMismatch { expected: Some(N), found: back.len() }),
        }
    }
}

} // verus!
