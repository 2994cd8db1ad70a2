//! Fixed-length arrays composed from typed building blocks.
//!
//! Every building block implements [`RecursiveArray`]: its type fixes the
//! number of elements it holds, and its elements can be viewed as one
//! contiguous slice in left-to-right order.
//!
//! The leaves keep their elements inline (a plain `[T; 1]` or `[T; N]`),
//! while the composite blocks keep theirs in one flat buffer whose length is
//! tied to the type by a proved invariant. Composition therefore moves the
//! elements into a new buffer once, instead of nesting the operands; in
//! exchange every slice view is an ordinary borrow, and no reinterpretation
//! of memory takes place anywhere.
use vstd::prelude::*;

pub mod capability;
pub mod composite;
pub mod laws;
pub mod leaves;
mod native;

pub use capability::{LengthMismatch, RecursiveArray, RecursiveArrayCompose};
pub use composite::{flatten, RecursiveArrayConcatenation, RecursiveArrayMultiplier};
pub use leaves::{EmptyRecursiveArray, RecursiveArrayArrayWrapper, RecursiveArraySingleItem};

verus! {

} // verus!
