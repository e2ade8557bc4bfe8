use stack::{reverse, Stack};

#[test]
fn pop_empty_stack_is_none() {
    let mut ss: Stack<isize> = Stack::from_values(vec![]);

    assert_eq!(ss.pop(), None);
}

#[test]
fn rightmost_value_of_stack_macro_is_on_top() {
    let mut ss = Stack::from_values(vec![1, 2, 3]);

    assert_eq!(ss.pop().unwrap(), 3);
}

#[test]
fn pop_of_new_stack_is_none_and_leaves_it_empty() {
    let mut ss: Stack<isize> = Stack::new();

    assert_eq!(ss.pop(), None);
    assert_eq!(ss.pop(), None);
    assert!(ss == Stack::new());
}

#[test]
fn push_then_pop_returns_the_value_and_restores_the_stack() {
    let before = Stack::from_values(vec![4, 5, 6]);
    let mut copy = before.clone();
    copy.push(7);

    assert_eq!(copy.pop(), Some(7));
    assert!(copy == before);
    assert_eq!(copy.pop(), Some(6));
    assert_eq!(copy.pop(), Some(5));
    assert_eq!(copy.pop(), Some(4));
    assert_eq!(copy.pop(), None);
}

#[test]
fn push_then_pop_on_empty_stack() {
    let mut ss: Stack<isize> = Stack::new();
    ss.push(-9);

    assert_eq!(ss.pop(), Some(-9));
    assert_eq!(ss.pop(), None);
}

#[test]
fn literal_list_pops_last_to_first() {
    let mut ss = Stack::from_values(vec![1, 2, 3]);

    assert_eq!(ss.pop(), Some(3));
    assert_eq!(ss.pop(), Some(2));
    assert_eq!(ss.pop(), Some(1));
    assert_eq!(ss.pop(), None);
}

#[test]
fn from_values_is_the_same_as_pushing_in_order() {
    let mut pushed = Stack::new();
    pushed.push('a');
    pushed.push('b');
    pushed.push('c');

    assert!(Stack::from_values(vec!['a', 'b', 'c']) == pushed);
}

#[test]
fn from_no_values_is_the_empty_stack() {
    let empty: Stack<u8> = Stack::from_values(vec![]);

    assert!(empty == Stack::new());
}

#[test]
fn reverse_puts_the_bottom_on_top() {
    let mut ss = Stack::new();
    ss.push(1);
    ss.push(2);
    ss.push(3);
    let mut rev = reverse(&ss);

    assert_eq!(rev.pop(), Some(1));
    assert_eq!(rev.pop(), Some(2));
    assert_eq!(rev.pop(), Some(3));
    assert_eq!(rev.pop(), None);
}

#[test]
fn reverse_leaves_its_input_as_it_was() {
    let mut ss = Stack::from_values(vec![1, 2, 3]);
    let _ = reverse(&ss);

    assert_eq!(ss.pop(), Some(3));
    assert_eq!(ss.pop(), Some(2));
    assert_eq!(ss.pop(), Some(1));
    assert_eq!(ss.pop(), None);
}

#[test]
fn reverse_of_empty_stack_is_empty() {
    let ss: Stack<isize> = Stack::new();
    let mut rev = reverse(&ss);

    assert_eq!(rev.pop(), None);
}

#[test]
fn reverse_of_single_element_is_that_element() {
    let ss = Stack::from_values(vec![42]);

    assert!(reverse(&ss) == ss);
}

#[test]
fn reverse_twice_gives_the_stack_back() {
    let ss = Stack::from_values(vec![10, -20, 30, 30, 0]);

    assert!(reverse(&reverse(&ss)) == ss);
    assert!(reverse(&ss) == Stack::from_values(vec![0, 30, 30, -20, 10]));
}

#[test]
fn reverse_works_on_elements_that_are_not_copy() {
    let ss = Stack::from_values(vec![String::from("bottom"), String::from("top")]);
    let mut rev = reverse(&ss);

    assert_eq!(rev.pop(), Some(String::from("bottom")));
    assert_eq!(rev.pop(), Some(String::from("top")));
    assert_eq!(rev.pop(), None);
}

#[test]
fn clone_then_push_leaves_original_unchanged() {
    let mut original = Stack::from_values(vec![1, 2]);
    let mut copy = original.clone();
    copy.push(3);

    assert_eq!(copy.pop(), Some(3));
    assert_eq!(copy.pop(), Some(2));
    assert_eq!(copy.pop(), Some(1));
    assert_eq!(copy.pop(), None);
    assert_eq!(original.pop(), Some(2));
    assert_eq!(original.pop(), Some(1));
    assert_eq!(original.pop(), None);
}

#[test]
fn clone_is_equal_to_the_original() {
    let original = Stack::from_values(vec![String::from("x"), String::from("y")]);

    assert!(original.clone() == original);
}

#[test]
fn popping_the_original_does_not_touch_the_clone() {
    let mut original = Stack::from_values(vec![7, 8]);
    let mut copy = original.clone();

    assert_eq!(original.pop(), Some(8));
    assert_eq!(original.pop(), Some(7));
    assert_eq!(copy.pop(), Some(8));
    assert_eq!(copy.pop(), Some(7));
    assert_eq!(copy.pop(), None);
}

#[test]
fn n_pushes_give_n_values_in_reverse_and_then_none() {
    let pushes: Vec<u32> = vec![5, 1, 4, 1, 5, 9, 2, 6];
    let mut ss = Stack::new();
    for value in pushes.iter() {
        ss.push(*value);
    }
    let mut seen = Vec::new();
    for _ in 0..pushes.len() {
        seen.push(ss.pop().unwrap());
    }

    assert_eq!(seen, vec![6, 2, 9, 5, 1, 4, 1, 5]);
    assert_eq!(ss.pop(), None);
}

#[test]
fn stacks_with_the_same_elements_in_the_same_order_are_equal() {
    let a = Stack::from_values(vec![1, 2, 3]);
    let b = Stack::from_values(vec![1, 2, 3]);

    assert!(a == b);
    assert!(!(a != b));
}

#[test]
fn stacks_of_different_size_are_not_equal() {
    let a = Stack::from_values(vec![1, 2, 3]);
    let b = Stack::from_values(vec![1, 2]);

    assert!(a != b);
    assert!(b != a);
}

#[test]
fn stacks_in_different_order_are_not_equal() {
    let a = Stack::from_values(vec![1, 2, 3]);
    let b = Stack::from_values(vec![3, 2, 1]);

    assert!(a != b);
}

#[test]
fn debug_shows_the_type_and_the_elements_bottom_first() {
    let ss = Stack::from_values(vec![1, 2, 3]);
    let empty: Stack<u8> = Stack::new();

    assert_eq!(format!("{:?}", ss), "Stack { data: [1, 2, 3] }");
    assert_eq!(format!("{:?}", empty), "Stack { data: [] }");
}
