//! Branching on a number and the sequences that simple loops walk through.

use vstd::prelude::*;

verus! {

/// Where a number falls relative to five and ten.
#[derive(Debug, Clone, Copy, PartialEq, Eq, Structural)]
pub enum Magnitude {
    BelowFive,
    BelowTen,
    TenOrMore,
}

/// The word chosen for a number by a match with literal and range arms.
#[derive(Debug, Clone, Copy, PartialEq, Eq, Structural)]
pub enum NumberWord {
    One,
    Two,
    ThreeToFive,
    Other,
}

/// What a match with a binding, a range and a guard reports about a number.
#[derive(Debug, Clone, Copy, PartialEq, Eq, Structural)]
pub enum NumberKind {
    /// The number lies in `1..=5`.
    InOneToFive(i32),
    /// The number lies outside `1..=5` and is even.
    Even(i32),
    /// The number lies outside `1..=5` and is odd.
    OtherOdd,
}

/// Classifies `n` with an `if` / `else if` / `else` chain.
pub fn magnitude(n: i32) -> (r: Magnitude)
    ensures
        r == (if n < 5 {
            Magnitude::BelowFive
        } else if n < 10 {
            Magnitude::BelowTen
        } else {
            Magnitude::TenOrMore
        }),
{
    if n < 5 {
        Magnitude::BelowFive
    } else if n < 10 {
        Magnitude::BelowTen
    } else {
        Magnitude::TenOrMore
    }
}

/// Names `n` by a match whose arms are tried in order: one, two, three to five, anything else.
pub fn number_word(n: i32) -> (r: NumberWord)
    ensures
        r == (if n == 1 {
            NumberWord::One
        } else if n == 2 {
            NumberWord::Two
        } else if 3 <= n <= 5 {
            NumberWord::ThreeToFive
        } else {
            NumberWord::Other
        }),
{
    match n {
        1 => NumberWord::One,
        2 => NumberWord::Two,
        3..=5 => NumberWord::ThreeToFive,
        _ => NumberWord::Other,
    }
}

/// Describes `n` by a match whose arms are tried in order: the range `1..=5`
/// (binding the number), then even numbers, then the rest.
pub fn number_kind(n: i32) -> (r: NumberKind)
    ensures
        r == (if 1 <= n <= 5 {
            NumberKind::InOneToFive(n)
        } else if n % 2 == 0 {
            NumberKind::Even(n)
        } else {
            NumberKind::OtherOdd
        }),
{
    match n {
        k @ 1..=5 => NumberKind::InOneToFive(k),
        k if k % 2 == 0 => NumberKind::Even(k),
        _ => NumberKind::OtherOdd,
    }
}

/// Counts up from zero in an unconditional loop and breaks once the count
/// reaches `limit`; returns the number of iterations performed.
pub fn iterations_until(limit: u32) -> (r: u32)
    requires
        limit >= 1,
    ensures
        r == limit,
{
    let mut count: u32 = 0;
    loop
        invariant_except_break
            count < limit,
        ensures
            count == limit,
        decreases limit - count,
    {
        count += 1;
        if count == limit {
            break;
        }
    }
    count
}

/// The values a countdown from `start` visits: `start, start - 1, ..., 1`.
pub open spec fn countdown_values(start: nat) -> Seq<u32> {
    Seq::new(start, |i: int| (start - i) as u32)
}

/// Counts down from `start` while the counter is non-zero, collecting each value.
pub fn countdown(start: u32) -> (r: Vec<u32>)
    ensures
        r@ == countdown_values(start as nat),
{
    let mut r: Vec<u32> = Vec::new();
    let mut number: u32 = start;
    while number != 0
        invariant
            number <= start,
            r@.len() == start - number,
            forall|i: int| 0 <= i < r@.len() ==> r@[i] == start - i,
        decreases number,
    {
        r.push(number);
        number -= 1;
    }
    assert(r@ =~= countdown_values(start as nat));
    r
}

/// The integers from `lo` up to `hi`, `hi` excluded.
pub open spec fn range_values(lo: i32, hi: i32) -> Seq<i32> {
    if lo < hi {
        Seq::new((hi - lo) as nat, |i: int| (lo + i) as i32)
    } else {
        Seq::empty()
    }
}

/// Collects the values of the half-open range `lo..hi` in increasing order.
pub fn collect_range(lo: i32, hi: i32) -> (r: Vec<i32>)
    ensures
        r@ == range_values(lo, hi),
{
    let mut r: Vec<i32> = Vec::new();
    let mut number: i32 = lo;
    while number < hi
        invariant
            lo <= number,
            number == lo || number <= hi,
            r@.len() == number - lo,
            forall|i: int| 0 <= i < r@.len() ==> r@[i] == lo + i,
        decreases hi - number,
    {
        r.push(number);
        number += 1;
    }
    assert(r@ =~= range_values(lo, hi));
    r
}

/// The integers from `lo` up to `hi`, `hi` included.
pub open spec fn range_values_inclusive(lo: i32, hi: i32) -> Seq<i32> {
    if lo <= hi {
        Seq::new((hi - lo + 1) as nat, |i: int| (lo + i) as i32)
    } else {
        Seq::empty()
    }
}

/// Collects the values of the closed range `lo..=hi` in increasing order.
pub fn collect_range_inclusive(lo: i32, hi: i32) -> (r: Vec<i32>)
    ensures
        r@ == range_values_inclusive(lo, hi),
{
    let mut r: Vec<i32> = Vec::new();
    if lo <= hi {
        let mut number: i32 = lo;
        loop
            invariant_except_break
                lo <= number <= hi,
                r@.len() == number - lo,
                forall|i: int| 0 <= i < r@.len() ==> r@[i] == lo + i,
            ensures
                r@.len() == hi - lo + 1,
                forall|i: int| 0 <= i < r@.len() ==> r@[i] == lo + i,
            decreases hi - number,
        {
            r.push(number);
            if number == hi {
                break;
            }
            number += 1;
        }
    }
    assert(r@ =~= range_values_inclusive(lo, hi));
    r
}

} // verus!
