//! The mathematical model of a stack: a sequence whose last element is the top.
//!
//! The contracts of the executable operations and the laws of the library
//! are stated over the functions of this module.

use vstd::prelude::*;

verus! {

/// The contents after `value` has been pushed onto `s`.
pub open spec fn pushed<T>(s: Seq<T>, value: T) -> Seq<T> {
    s.push(value)
}

/// What a pop of `s` hands out: the top element, or nothing when `s` is empty.
pub open spec fn top<T>(s: Seq<T>) -> Option<T> {
    if s.len() > 0 {
        Some(s.last())
    } else {
        None
    }
}

/// The contents after one pop of `s`: an empty stack stays as it is.
pub open spec fn popped<T>(s: Seq<T>) -> Seq<T> {
    if s.len() > 0 {
        s.drop_last()
    } else {
        s
    }
}

/// The contents after each of `values` has been pushed onto `s`, first to last.
pub open spec fn pushed_all<T>(s: Seq<T>, values: Seq<T>) -> Seq<T>
    decreases values.len(),
{
    if values.len() == 0 {
        s
    } else {
        pushed(pushed_all(s, values.drop_last()), values.last())
    }
}

/// The contents after `n` pops of `s` in a row.
pub open spec fn popped_times<T>(s: Seq<T>, n: nat) -> Seq<T>
    decreases n,
{
    if n == 0 {
        s
    } else {
        popped_times(popped(s), (n - 1) as nat)
    }
}

/// Whether `copy` can be the outcome of cloning `original` element by element:
/// both have the same length, and each element of `copy` is a clone of the
/// element of `original` at the same position.
pub open spec fn is_copy<T: Clone>(original: Seq<T>, copy: Seq<T>) -> bool {
    &&& copy.len() == original.len()
    &&& forall|i: int| 0 <= i < original.len() ==> cloned::<T>(original[i], #[trigger] copy[i])
}

/// Whether every value that `T::clone` may return for `value` equals `value`.
pub open spec fn clones_exactly<T: Clone>(value: T) -> bool {
    forall|copy: T| #[trigger] cloned::<T>(value, copy) ==> copy == value
}

/// Whether each element of `s` clones exactly.
pub open spec fn all_clone_exactly<T: Clone>(s: Seq<T>) -> bool {
    forall|i: int| 0 <= i < s.len() ==> clones_exactly(#[trigger] s[i])
}

} // verus!
