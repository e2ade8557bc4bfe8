//! Stacks of random size for property-based testing with `quickcheck`.

use crate::stack::Stack;
use quickcheck::Gen;
use vstd::prelude::*;

verus! {

/// The random source of `quickcheck`, carried through as an opaque value.
#[verifier::external_type_specification]
#[verifier::external_body]
pub struct ExGen(quickcheck::Gen);

/// Draws a size with `<u16 as quickcheck::Arbitrary>::arbitrary`.
///
/// The value depends on the state of the random source, so nothing is claimed
/// of it beyond its type, nor of the state that the source is left in.
#[verifier::external_body]
fn draw_size(g: &mut Gen) -> (size: u16) {
    quickcheck::Arbitrary::arbitrary(g)
}

/// Whether `value` is something that `element` may return, for some state of
/// the random source.
pub open spec fn generated_by<T, F: Fn(&mut Gen) -> T>(element: F, value: T) -> bool {
    exists|h: &mut Gen| call_ensures(element, (h,), value)
}

/// Produces a stack of `size` elements by pushing, `size` times, what
/// `element` makes of the random source.
pub fn filled_with<T, F: Fn(&mut Gen) -> T>(size: u16, g: &mut Gen, element: F) -> (stack: Stack<T>)
    requires
        forall|h: &mut Gen| call_requires(element, (h,)),
    ensures
        stack@.len() == size,
        forall|i: int| 0 <= i < stack@.len() ==> generated_by(element, #[trigger] stack@[i]),
{
    let mut left: u16 = size;
    let mut stack: Stack<T> = Stack::new();
    while left > 0
        invariant
            forall|h: &mut Gen| call_requires(element, (h,)),
            stack@.len() + left == size,
            forall|i: int| 0 <= i < stack@.len() ==> generated_by(element, #[trigger] stack@[i]),
        decreases left,
    {
        let value = element(g);
        stack.push(value);
        left -= 1;
    }
    stack
}

/// Produces a stack of random size, at most `u16::MAX`, whose elements
/// `element` makes of the random source.
pub fn arbitrary_with<T, F: Fn(&mut Gen) -> T>(g: &mut Gen, element: F) -> (stack: Stack<T>)
    requires
        forall|h: &mut Gen| call_requires(element, (h,)),
    ensures
        stack@.len() <= u16::MAX,
        forall|i: int| 0 <= i < stack@.len() ==> generated_by(element, #[trigger] stack@[i]),
{
    let size: u16 = draw_size(g);
    filled_with(size, g, element)
}

} // verus!
