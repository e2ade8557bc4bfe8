//! The stack type and its basic operations.

use crate::laws::lemma_pushed_all_appends;
use crate::model::{is_copy, popped, pushed, pushed_all, top};
use vstd::prelude::*;
use vstd::std_specs::cmp::PartialEqSpec;

verus! {

/// A growable stack type.
///
/// Its view is the sequence of the elements it holds, from the bottom
/// (index 0) to the top (the last index).
#[derive(Debug)]
pub struct Stack<T> {
    data: Vec<T>,
}

impl<T> View for Stack<T> {
    type V = Seq<T>;

    closed spec fn view(&self) -> Seq<T> {
        self.data@
    }
}

impl<T> Stack<T> {
    /// Constructs a new, empty `Stack<T>`.
    pub fn new() -> (stack: Stack<T>)
        ensures
            stack@ == Seq::<T>::empty(),
    {
        Stack { data: Vec::new() }
    }

    /// Pushes an element onto the stack.
    pub fn push(&mut self, value: T)
        ensures
            final(self)@ == pushed(old(self)@, value),
    {
        self.data.push(value)
    }

    /// Pops an element off of the stack.
    pub fn pop(&mut self) -> (value: Option<T>)
        ensures
            value == top(old(self)@),
            final(self)@ == popped(old(self)@),
    {
        self.data.pop()
    }

    /// Constructs a stack by pushing `values` in order onto an empty stack, so
    /// that the last of them ends up on top.
    pub fn from_values(values: Vec<T>) -> (stack: Stack<T>)
        ensures
            stack@ == pushed_all(Seq::<T>::empty(), values@),
            stack@ == values@,
    {
        proof {
            lemma_pushed_all_appends(Seq::<T>::empty(), values@);
        }
        let mut stack: Stack<T> = Stack::new();
        for value in it: values.into_iter()
            invariant
                stack@ == it.seq().take(it.index() as int),
        {
            stack.push(value);
        }
        stack
    }
}

impl<T: PartialEq> PartialEq for Stack<T> {
    /// Compares two stacks element by element; what the result means is
    /// `eq_spec`, for element types whose own comparison has a meaning.
    fn eq(&self, other: &Stack<T>) -> (equal: bool) {
        self.data == other.data
    }
}

impl<T: PartialEq> vstd::std_specs::cmp::PartialEqSpecImpl for Stack<T> {
    open spec fn obeys_eq_spec() -> bool {
        T::obeys_eq_spec()
    }

    open spec fn eq_spec(&self, other: &Stack<T>) -> bool {
        &&& self@.len() == other@.len()
        &&& forall|i: int|
            #![trigger self@[i]]
            #![trigger other@[i]]
            0 <= i < self@.len() ==> self@[i].eq_spec(&other@[i])
    }
}

impl<T: Clone> Clone for Stack<T> {
    /// Makes a stack of its own that holds a clone of each element, in the
    /// same order.
    fn clone(&self) -> (copy: Stack<T>)
        ensures
            is_copy(self@, copy@),
    {
        Stack { data: self.data.clone() }
    }
}

/// Produces the reversed form of a stack. Top element of the input
/// becomes the bottom of output.
///
/// The input is left as it is: the elements of the output are clones of its
/// elements, each cloned once.
pub fn reverse<T: Clone>(ss: &Stack<T>) -> (rev: Stack<T>)
    ensures
        is_copy(ss@.reverse(), rev@),
{
    let mut copy = ss.clone();
    let mut rev: Stack<T> = Stack::new();
    loop
        invariant
            copy@.len() + rev@.len() == ss@.len(),
            forall|i: int| 0 <= i < copy@.len() ==> cloned::<T>(ss@[i], #[trigger] copy@[i]),
            forall|i: int|
                0 <= i < rev@.len() ==> cloned::<T>(ss@[ss@.len() - 1 - i], #[trigger] rev@[i]),
        decreases copy@.len(),
    {
        match copy.pop() {
            None => {
                return rev;
            },
            Some(elem) => {
                rev.push(elem);
            },
        }
    }
}

} // verus!
