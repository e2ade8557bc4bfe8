//! Laws that relate the operations of the stack, proved over the model.

use crate::model::{
    all_clone_exactly, clones_exactly, is_copy, popped, popped_times, pushed, pushed_all, top,
};
use crate::stack::Stack;
use vstd::laws_eq::obeys_concrete_eq;
use vstd::prelude::*;
use vstd::std_specs::cmp::PartialEqSpec;

verus! {

/// A pop right after a push hands out the pushed value and leaves the contents
/// as they were before the push, whatever they were.
pub proof fn lemma_push_then_pop<T>(s: Seq<T>, x: T)
    ensures
        top(pushed(s, x)) == Some(x),
        popped(pushed(s, x)) == s,
{
    assert(s.push(x).drop_last() =~= s);
}

/// A copy of contents whose elements all clone exactly equals those contents.
pub proof fn lemma_exact_copy_is_equal<T: Clone>(s: Seq<T>, copy: Seq<T>)
    requires
        is_copy(s, copy),
        all_clone_exactly(s),
    ensures
        copy == s,
{
    assert forall|i: int| 0 <= i < s.len() implies copy[i] == s[i] by {
        assert(clones_exactly(s[i]));
        assert(cloned::<T>(s[i], copy[i]));
    }
    assert(copy =~= s);
}

/// Pushing a value onto a copy of a stack and popping it again hands out that
/// value and leaves the copy with the contents of the stack it was taken from,
/// provided that the elements clone exactly.
pub proof fn lemma_push_then_pop_on_copy<T: Clone>(s: Seq<T>, copy: Seq<T>, x: T)
    requires
        is_copy(s, copy),
        all_clone_exactly(s),
    ensures
        top(pushed(copy, x)) == Some(x),
        popped(pushed(copy, x)) == s,
{
    lemma_exact_copy_is_equal(s, copy);
    lemma_push_then_pop(copy, x);
}

/// The reverse of the reverse of a stack has the contents of that stack,
/// provided that the elements clone exactly: `once` stands for what the first
/// reversal returns and `twice` for what the second returns.
pub proof fn lemma_reverse_twice<T: Clone>(s: Seq<T>, once: Seq<T>, twice: Seq<T>)
    requires
        is_copy(s.reverse(), once),
        is_copy(once.reverse(), twice),
        all_clone_exactly(s),
    ensures
        twice == s,
{
    assert(all_clone_exactly(s.reverse()));
    lemma_exact_copy_is_equal(s.reverse(), once);
    assert(s.reverse().reverse() =~= s);
    lemma_exact_copy_is_equal(s, twice);
}

/// A stack that was copied and the copy that then takes a push each pop what is
/// their own: the copy is one longer than the original and hands out the new
/// value, the original hands out its own top and keeps the rest of its contents.
pub proof fn lemma_push_on_copy_leaves_original<T: Clone>(original: Seq<T>, copy: Seq<T>, x: T)
    requires
        original.len() > 0,
        is_copy(original, copy),
    ensures
        pushed(copy, x).len() == original.len() + 1,
        top(pushed(copy, x)) == Some(x),
        popped(pushed(copy, x)) == copy,
        top(original) == Some(original.last()),
        popped(original) == original.drop_last(),
{
    lemma_push_then_pop(copy, x);
}

/// Pushing values one after the other appends them in that order.
pub proof fn lemma_pushed_all_appends<T>(s: Seq<T>, values: Seq<T>)
    ensures
        pushed_all(s, values) == s + values,
    decreases values.len(),
{
    if values.len() == 0 {
        assert(s + values =~= s);
    } else {
        lemma_pushed_all_appends(s, values.drop_last());
        assert((s + values.drop_last()).push(values.last()) =~= s + values);
    }
}

/// Popping `n` times removes the `n` topmost elements, or all of them where
/// there are fewer.
pub proof fn lemma_popped_times_takes<T>(s: Seq<T>, n: nat)
    ensures
        n <= s.len() ==> popped_times(s, n) == s.take(s.len() - n),
        n >= s.len() ==> popped_times(s, n) == Seq::<T>::empty(),
    decreases n,
{
    if n == 0 {
        assert(s.take(s.len() as int) =~= s);
        if s.len() == 0 {
            assert(s =~= Seq::<T>::empty());
        }
    } else {
        lemma_popped_times_takes(popped(s), (n - 1) as nat);
        if s.len() > 0 {
            if n <= s.len() {
                assert(s.drop_last().take(s.len() - n) =~= s.take(s.len() - n));
            }
        } else {
            assert(s =~= Seq::<T>::empty());
        }
    }
}

/// After `n` pushes onto an empty stack and no pop, the next `n` pops each hand
/// out a value, the pushed values in the reverse of the order of the pushes,
/// and the pop after them hands out nothing.
pub proof fn lemma_pushes_then_pops<T>(values: Seq<T>)
    ensures
        forall|k: nat|
            k < values.len() ==> top(
                #[trigger] popped_times(pushed_all(Seq::<T>::empty(), values), k),
            ) == Some(values[values.len() - 1 - k]),
        top(popped_times(pushed_all(Seq::<T>::empty(), values), values.len())) == None::<T>,
{
    let all = pushed_all(Seq::<T>::empty(), values);
    lemma_pushed_all_appends(Seq::<T>::empty(), values);
    assert(Seq::<T>::empty() + values =~= values);
    assert forall|k: nat| k < values.len() implies top(#[trigger] popped_times(all, k)) == Some(
        values[values.len() - 1 - k],
    ) by {
        lemma_popped_times_takes(all, k);
    }
    lemma_popped_times_takes(all, values.len());
}

/// Where equality of the elements is equality of their values, two stacks
/// compare equal exactly when they hold the same contents.
pub proof fn lemma_eq_is_equality_of_contents<T: PartialEq>(a: Stack<T>, b: Stack<T>)
    requires
        obeys_concrete_eq::<T>(),
    ensures
        Stack::<T>::obeys_eq_spec(),
        a.eq_spec(&b) <==> a@ == b@,
{
    reveal(obeys_concrete_eq);
    if a.eq_spec(&b) {
        assert(a@ =~= b@);
    }
}

} // verus!
