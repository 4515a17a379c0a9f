//! Searching and transforming sequences of integers.

use vstd::prelude::*;

verus! {

/// Returns the zero-based position of the first element equal to `target`,
/// or `None` when no element matches.
pub fn find_item(items: &[i32], target: i32) -> (r: Option<usize>)
    ensures
        match r {
            Some(i) => i < items@.len() && items@[i as int] == target && forall|j: int|
                0 <= j < i ==> items@[j] != target,
            None => forall|j: int| 0 <= j < items@.len() ==> items@[j] != target,
        },
{
    let mut index: usize = 0;
    while index < items.len()
        invariant
            index <= items@.len(),
            forall|j: int| 0 <= j < index ==> items@[j] != target,
        decreases items@.len() - index,
    {
        if items[index] == target {
            return Some(index);
        }
        index += 1;
    }
    None
}

/// Whether `x` is even.
pub open spec fn is_even(x: i32) -> bool {
    x % 2 == 0
}

/// Returns a new vector holding each element of `v` plus one, in the same order.
pub fn increment_all(v: &Vec<i32>) -> (r: Vec<i32>)
    requires
        forall|i: int| 0 <= i < v@.len() ==> v@[i] < i32::MAX,
    ensures
        r@.len() == v@.len(),
        forall|i: int| 0 <= i < v@.len() ==> r@[i] == v@[i] + 1,
{
    let mut r: Vec<i32> = Vec::new();
    let mut i: usize = 0;
    while i < v.len()
        invariant
            i <= v@.len(),
            forall|k: int| 0 <= k < v@.len() ==> v@[k] < i32::MAX,
            r@.len() == i,
            forall|k: int| 0 <= k < i ==> r@[k] == v@[k] + 1,
        decreases v@.len() - i,
    {
        r.push(v[i] + 1);
        i += 1;
    }
    r
}

/// Consumes `v` and returns its even elements, keeping their relative order.
pub fn keep_even(v: Vec<i32>) -> (r: Vec<i32>)
    ensures
        r@ == v@.filter(|x: i32| is_even(x)),
{
    let mut r: Vec<i32> = Vec::new();
    let mut i: usize = 0;
    while i < v.len()
        invariant
            i <= v@.len(),
            r@ == v@.subrange(0, i as int).filter(|x: i32| is_even(x)),
        decreases v@.len() - i,
    {
        let x = v[i];
        let ghost s = v@.subrange(0, i as int + 1);
        proof {
            assert(s.drop_last() =~= v@.subrange(0, i as int));
        }
        if x % 2 == 0 {
            r.push(x);
        }
        i += 1;
        proof {
            reveal_with_fuel(Seq::filter, 1);
            assert(s.last() == x);
        }
    }
    assert(v@.subrange(0, v@.len() as int) =~= v@);
    r
}

} // verus!
